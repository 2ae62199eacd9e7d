//! App catalog capability — plugins register launchable tiles; the dashboard
//! lists the tiles a user may see, ordered by name.

use std::marker::PhantomData;

use vstd::prelude::*;

use crate::capability::{App, ApplyHooks, CapStore, Cons, Nil, Tagged};
use crate::attrs::{key_lt, key_lt_exec, lemma_key_lt_asym, lemma_key_lt_total, lemma_key_lt_trans};
use crate::text::{chars_eq, chars_of, str_eq};

verus! {

/// Capability tag for the app catalog.
pub struct AppsTag;

/// Kind of registered plugin.
#[derive(PartialEq, Eq, Structural, Clone, Copy, Debug)]
pub enum PluginType {
    /// Shows on the apps grid.
    App,
    /// Addon / infrastructure — hidden from the grid.
    Addon,
}

/// A launchable tile on the dashboard apps grid.
pub struct AppTile {
    pub key: String,
    pub verbose_name: String,
    pub href: String,
    /// Short label / icon name used as the tile icon.
    pub icon: String,
    pub plugin_type: PluginType,
    /// If non-empty, only these roles (or superuser) see the tile.
    pub roles: Vec<String>,
}

/// A tile as plain values: key, name, href, icon, kind, roles.
pub type TileView = (Seq<char>, Seq<char>, Seq<char>, Seq<char>, PluginType, Seq<Seq<char>>);

impl View for AppTile {
    type V = TileView;

    open spec fn view(&self) -> TileView {
        (
            self.key@,
            self.verbose_name@,
            self.href@,
            self.icon@,
            self.plugin_type,
            self.roles@.map_values(|r: String| r@),
        )
    }
}

impl AppTile {
    /// A copy of this tile.
    pub fn duplicate(&self) -> (r: AppTile)
        ensures
            r@ == self@,
    {
        let mut roles: Vec<String> = Vec::new();
        let mut i: usize = 0;
        while i < self.roles.len()
            invariant
                i <= self.roles.len(),
                roles@.map_values(|r: String| r@) == self.roles@.map_values(|r: String| r@).take(i as int),
            decreases self.roles.len() - i,
        {
            let ghost before = roles@;
            roles.push(self.roles[i].clone());
            assert(roles@.map_values(|r: String| r@) == before.map_values(|r: String| r@).push(self.roles@[i as int]@));
            assert(self.roles@.map_values(|r: String| r@).take(i + 1) == self.roles@.map_values(|r: String| r@).take(
                i as int,
            ).push(self.roles@[i as int]@));
            i = i + 1;
        }
        assert(self.roles@.map_values(|r: String| r@).take(self.roles@.len() as int) == self.roles@.map_values(
            |r: String| r@,
        ));
        AppTile {
            key: self.key.clone(),
            verbose_name: self.verbose_name.clone(),
            href: self.href.clone(),
            icon: self.icon.clone(),
            plugin_type: self.plugin_type,
            roles,
        }
    }
}

/// Index of the first tile whose key is `key`, or `-1`.
pub open spec fn key_index(apps: Seq<TileView>, key: Seq<char>) -> int
    decreases apps.len(),
{
    if apps.len() == 0 {
        -1
    } else if apps[0].0 == key {
        0
    } else {
        let r = key_index(apps.drop_first(), key);
        if r < 0 {
            -1
        } else {
            r + 1
        }
    }
}

/// Registering a tile: replace the tile with the same key, or append it.
pub open spec fn register_spec(apps: Seq<TileView>, tile: TileView) -> Seq<TileView> {
    let i = key_index(apps, tile.0);
    if i >= 0 {
        apps.update(i, tile)
    } else {
        apps.push(tile)
    }
}

/// The tile is shown to `role` (superusers see every app tile).
pub open spec fn tile_visible(t: TileView, role: Seq<char>, is_superuser: bool) -> bool {
    t.4 == PluginType::App && (is_superuser || t.5.len() == 0 || t.5.contains(role))
}

/// The tiles shown to `role`, in registration order.
pub open spec fn visible_filter(apps: Seq<TileView>, role: Seq<char>, is_superuser: bool) -> Seq<TileView>
    decreases apps.len(),
{
    if apps.len() == 0 {
        seq![]
    } else {
        let rest = visible_filter(apps.drop_last(), role, is_superuser);
        if tile_visible(apps.last(), role, is_superuser) {
            rest.push(apps.last())
        } else {
            rest
        }
    }
}

/// Insert `t` into name-sorted `s` after every tile whose name is not above its own.
pub open spec fn insert_by_name(s: Seq<TileView>, t: TileView) -> Seq<TileView>
    decreases s.len(),
{
    if s.len() == 0 {
        seq![t]
    } else if key_lt(t.1, s.last().1) {
        insert_by_name(s.drop_last(), t).push(s.last())
    } else {
        s.push(t)
    }
}

/// Stable sort by name (`sort_by` on `verbose_name`).
pub open spec fn sort_by_name(s: Seq<TileView>) -> Seq<TileView>
    decreases s.len(),
{
    if s.len() == 0 {
        seq![]
    } else {
        insert_by_name(sort_by_name(s.drop_last()), s.last())
    }
}

/// Names never decrease along `s`.
pub open spec fn sorted_by_name(s: Seq<TileView>) -> bool {
    forall|i: int, j: int| 0 <= i < j < s.len() ==> !key_lt(#[trigger] s[j].1, #[trigger] s[i].1)
}

/// `key_index` finds the first tile with the key.
pub proof fn lemma_key_index(apps: Seq<TileView>, key: Seq<char>)
    ensures
        -1 <= key_index(apps, key) < apps.len(),
        key_index(apps, key) >= 0 ==> apps[key_index(apps, key)].0 == key,
        forall|j: int| 0 <= j < apps.len() && (key_index(apps, key) < 0 || j < key_index(apps, key)) ==> (#[trigger] apps[j]).0 != key,
    decreases apps.len(),
{
    if apps.len() > 0 && apps[0].0 != key {
        lemma_key_index(apps.drop_first(), key);
        assert forall|j: int| 0 < j < apps.len() implies apps[j] == apps.drop_first()[j - 1] by {}
    }
}

/// `insert_by_name` splices `t` at position `j` when every later tile is named above it.
pub proof fn lemma_insert_by_name_at(s: Seq<TileView>, t: TileView, j: int)
    requires
        0 <= j <= s.len(),
        forall|m: int| j <= m < s.len() ==> key_lt(t.1, #[trigger] s[m].1),
        j > 0 ==> !key_lt(t.1, s[j - 1].1),
    ensures
        insert_by_name(s, t) == s.take(j) + seq![t] + s.skip(j),
    decreases s.len(),
{
    if s.len() == 0 {
        assert(s.take(j) + seq![t] + s.skip(j) == seq![t]);
    } else if j == s.len() {
        assert(s.take(j) + seq![t] + s.skip(j) == s.push(t));
    } else {
        assert(key_lt(t.1, s.last().1));
        lemma_insert_by_name_at(s.drop_last(), t, j);
        assert(s.drop_last().take(j) + seq![t] + s.drop_last().skip(j) + seq![s.last()] == s.take(j) + seq![t]
            + s.skip(j));
    }
}

/// Inserting into a name-sorted sequence keeps it sorted.
pub proof fn lemma_insert_by_name_sorted(s: Seq<TileView>, t: TileView)
    requires
        sorted_by_name(s),
    ensures
        sorted_by_name(insert_by_name(s, t)),
        insert_by_name(s, t).to_multiset() == s.to_multiset().insert(t),
    decreases s.len(),
{
    broadcast use vstd::seq_lib::group_to_multiset_ensures;
    let r = insert_by_name(s, t);
    if s.len() == 0 {
        assert(r == seq![t]);
        assert(seq![t] == Seq::<TileView>::empty().push(t));
    } else if key_lt(t.1, s.last().1) {
        let s0 = s.drop_last();
        assert(sorted_by_name(s0)) by {
            assert forall|i: int, j: int| 0 <= i < j < s0.len() implies !key_lt(#[trigger] s0[j].1, #[trigger] s0[i].1) by {
                assert(s0[i] == s[i] && s0[j] == s[j]);
            }
        }
        lemma_insert_by_name_sorted(s0, t);
        let r0 = insert_by_name(s0, t);
        assert(r == r0.push(s.last()));
        assert(s0.push(s.last()) == s);
        assert forall|i: int, j: int| 0 <= i < j < r.len() implies !key_lt(#[trigger] r[j].1, #[trigger] r[i].1) by {
            if j == r.len() - 1 {
                assert(r[j] == s.last());
                let x = r[i];
                assert(r[i] == r0[i]);
                assert(r0.to_multiset().count(x) > 0);
                assert(r0.contains(x)) by {
                    assert(r0[i] == x);
                }
                assert(s0.to_multiset().insert(t).count(x) > 0);
                if x == t {
                    lemma_key_lt_asym(t.1, s.last().1);
                } else {
                    assert(s0.to_multiset().count(x) > 0);
                    assert(s0.contains(x));
                    let k = choose|k: int| 0 <= k < s0.len() && s0[k] == x;
                    assert(s[k] == x);
                    assert(!key_lt(s[s.len() - 1].1, s[k].1));
                }
            } else {
                assert(r[i] == r0[i] && r[j] == r0[j]);
            }
        }
    } else {
        assert(r == s.push(t));
        assert forall|i: int, j: int| 0 <= i < j < r.len() implies !key_lt(#[trigger] r[j].1, #[trigger] r[i].1) by {
            if j == r.len() - 1 {
                assert(r[j] == t);
                assert(r[i] == s[i]);
                if i < s.len() - 1 {
                    assert(!key_lt(s[s.len() - 1].1, s[i].1));
                    if key_lt(t.1, s[i].1) {
                        lemma_key_lt_total(s[s.len() - 1].1, s[i].1);
                        lemma_key_lt_total(t.1, s[s.len() - 1].1);
                        if key_lt(s[i].1, s[s.len() - 1].1) {
                            lemma_key_lt_trans(t.1, s[i].1, s[s.len() - 1].1);
                        }
                    }
                }
            } else {
                assert(r[i] == s[i] && r[j] == s[j]);
            }
        }
    }
}

/// The stable sort is sorted by name and holds the same tiles.
pub proof fn lemma_sort_by_name(s: Seq<TileView>)
    ensures
        sorted_by_name(sort_by_name(s)),
        sort_by_name(s).to_multiset() == s.to_multiset(),
    decreases s.len(),
{
    broadcast use vstd::seq_lib::group_to_multiset_ensures;
    if s.len() > 0 {
        lemma_sort_by_name(s.drop_last());
        lemma_insert_by_name_sorted(sort_by_name(s.drop_last()), s.last());
        assert(s.drop_last().push(s.last()) == s);
    }
}

/// Runtime catalog of [`AppTile`]s.
pub struct AppsCapability {
    apps: Vec<AppTile>,
}

impl View for AppsCapability {
    type V = Seq<TileView>;

    closed spec fn view(&self) -> Seq<TileView> {
        self.apps@.map_values(|t: AppTile| t@)
    }
}

impl AppsCapability {
    /// An empty catalog.
    pub fn new() -> (r: Self)
        ensures
            r@ == Seq::<TileView>::empty(),
    {
        let r = AppsCapability { apps: Vec::new() };
        assert(r@ =~= Seq::<TileView>::empty());
        r
    }

    /// Register a tile (idempotent on `key`: replaces an existing entry).
    pub fn register(self, tile: AppTile) -> (r: Self)
        ensures
            r@ == register_spec(self@, tile@),
    {
        let mut apps = self.apps;
        let ghost es = apps@.map_values(|t: AppTile| t@);
        proof {
            lemma_key_index(es, tile@.0);
        }
        let kv = chars_of(tile.key.as_str());
        let mut i: usize = 0;
        while i < apps.len()
            invariant
                i <= apps.len(),
                es == apps@.map_values(|t: AppTile| t@),
                kv@ == tile@.0,
                es == self@,
                forall|j: int| 0 <= j < i ==> (#[trigger] es[j]).0 != tile@.0,
                -1 <= key_index(es, tile@.0) < es.len(),
                key_index(es, tile@.0) >= 0 ==> es[key_index(es, tile@.0)].0 == tile@.0,
                forall|j: int| 0 <= j < es.len() && (key_index(es, tile@.0) < 0 || j < key_index(es, tile@.0))
                    ==> (#[trigger] es[j]).0 != tile@.0,
            decreases apps.len() - i,
        {
            let ak = chars_of(apps[i].key.as_str());
            assert(es[i as int].0 == ak@);
            if chars_eq(&ak, &kv) {
                assert(key_index(es, tile@.0) == i);
                let ghost tv = tile@;
                apps.set(i, tile);
                assert(apps@.map_values(|t: AppTile| t@) =~= es.update(i as int, tv));
                return AppsCapability { apps };
            }
            i = i + 1;
        }
        let ghost tv = tile@;
        apps.push(tile);
        assert(apps@.map_values(|t: AppTile| t@) =~= es.push(tv));
        AppsCapability { apps }
    }

    /// Number of registered tiles.
    pub fn len(&self) -> (r: usize)
        ensures
            r == self@.len(),
    {
        self.apps.len()
    }

    /// The registered tiles, in registration order.
    pub fn apps(&self) -> (r: &[AppTile])
        ensures
            r@.map_values(|t: AppTile| t@) == self@,
    {
        self.apps.as_slice()
    }

    /// Apps visible on the dashboard grid for the given role, ordered by name
    /// (ties keep registration order).
    pub fn visible_apps(&self, role: &str, is_superuser: bool) -> (r: Vec<AppTile>)
        ensures
            r@.map_values(|t: AppTile| t@) == sort_by_name(visible_filter(self@, role@, is_superuser)),
    {
        let ghost es = self@;
        let mut sorted: Vec<AppTile> = Vec::new();
        let mut i: usize = 0;
        while i < self.apps.len()
            invariant
                i <= self.apps.len(),
                es == self@,
                es == self.apps@.map_values(|t: AppTile| t@),
                sorted@.map_values(|t: AppTile| t@) == sort_by_name(visible_filter(es.take(i as int), role@, is_superuser)),
            decreases self.apps.len() - i,
        {
            let tile = &self.apps[i];
            assert(es.take(i + 1).drop_last() == es.take(i as int));
            assert(es.take(i + 1).last() == tile@);
            let ghost vf = visible_filter(es.take(i as int), role@, is_superuser);
            if is_visible(tile, role, is_superuser) {
                let t = tile.duplicate();
                insert_sorted_by_name(&mut sorted, t);
                assert(vf.push(tile@).drop_last() == vf);
            }
            i = i + 1;
        }
        assert(es.take(es.len() as int) == es);
        sorted
    }
}

/// Whether `tile` is shown to `role`.
fn is_visible(tile: &AppTile, role: &str, is_superuser: bool) -> (r: bool)
    ensures
        r == tile_visible(tile@, role@, is_superuser),
{
    if tile.plugin_type != PluginType::App {
        return false;
    }
    if is_superuser || tile.roles.len() == 0 {
        return true;
    }
    let ghost rs = tile.roles@.map_values(|r: String| r@);
    let mut i: usize = 0;
    while i < tile.roles.len()
        invariant
            i <= tile.roles.len(),
            rs == tile.roles@.map_values(|r: String| r@),
            tile.plugin_type == PluginType::App,
            forall|j: int| 0 <= j < i ==> rs[j] != role@,
        decreases tile.roles.len() - i,
    {
        if str_eq(tile.roles[i].as_str(), role) {
            assert(rs[i as int] == role@);
            assert(tile@.5[i as int] == role@);
            assert(tile@.5.contains(role@));
            return true;
        }
        i = i + 1;
    }
    false
}

/// Stable insertion of `t` into the name-sorted `v`.
fn insert_sorted_by_name(v: &mut Vec<AppTile>, t: AppTile)
    ensures
        final(v)@.map_values(|x: AppTile| x@) == insert_by_name(old(v)@.map_values(|x: AppTile| x@), t@),
{
    let ghost s = v@.map_values(|x: AppTile| x@);
    let tn = chars_of(t.verbose_name.as_str());
    let mut j: usize = v.len();
    while j > 0 && key_lt_exec(&tn, &chars_of(v[j - 1].verbose_name.as_str()))
        invariant
            j <= v.len(),
            s == v@.map_values(|x: AppTile| x@),
            tn@ == t@.1,
            forall|m: int| j <= m < s.len() ==> key_lt(t@.1, #[trigger] s[m].1),
        decreases j,
    {
        j = j - 1;
    }
    proof {
        lemma_insert_by_name_at(s, t@, j as int);
    }
    let ghost tv = t@;
    v.insert(j, t);
    assert(v@.map_values(|x: AppTile| x@) =~= s.take(j as int) + seq![tv] + s.skip(j as int));
}

/// Implemented per plugin: registers the plugin's dashboard tiles.
pub trait RegisterApps<Plugin>: Sized {
    /// The catalog with the plugin's tiles registered.
    spec fn registered(self) -> Self;

    /// `self` with the plugin's tiles registered.
    fn register_apps(self) -> (r: Self)
        ensures
            r == self.registered(),
    ;
}

/// Deferred plugin hook: register the plugin's app tiles at mount time.
pub struct RegisterAppsHook<Plugin> {
    pub plugin: PhantomData<Plugin>,
}

/// A chain of plugin hooks over the catalog: the later hooks (the tail) run
/// first, then this plugin registers its tiles.
impl<Plugin, Tail> ApplyHooks<AppsCapability> for Cons<Tagged<Plugin, RegisterAppsHook<Plugin>>, Tail>
where
    Tail: ApplyHooks<AppsCapability, Output = AppsCapability>,
    AppsCapability: RegisterApps<Plugin>,
{
    type Output = AppsCapability;

    open spec fn applied(self, items: AppsCapability) -> AppsCapability {
        <AppsCapability as RegisterApps<Plugin>>::registered(self.tail.applied(items))
    }

    fn apply_hooks(self, items: AppsCapability) -> (r: AppsCapability) {
        let items = self.tail.apply_hooks(items);
        <AppsCapability as RegisterApps<Plugin>>::register_apps(items)
    }
}

impl<Hooks: ApplyHooks<AppsCapability, Output = AppsCapability>> CapStore<AppsTag, Hooks, AppsCapability> {
    /// Run the store's hooks on its catalog, leaving a store with no hooks.
    pub fn resolve_hooks(self) -> (r: CapStore<AppsTag, Nil, AppsCapability>)
        ensures
            r.items == self.hooks.applied(self.items),
    {
        let CapStore { hooks, items, tag } = self;
        CapStore::with_items(hooks.apply_hooks(items))
    }
}

/// Add the app catalog, empty and with no hooks, to an app.
pub fn with_apps<L>(app: App<L>) -> (r: App<Cons<CapStore<AppsTag, Nil, AppsCapability>, L>>)
    ensures
        r.capabilities.head.items@ == Seq::<TileView>::empty(),
        r.capabilities.tail == app.capabilities,
{
    app.attach_cap(CapStore::with_items(AppsCapability::new()))
}

} // verus!
