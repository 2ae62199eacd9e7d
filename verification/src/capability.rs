//! Uniform capability shape: deferred hooks plus items, mounted into a tagged value.

use std::marker::PhantomData;

use vstd::prelude::*;

verus! {

/// A value tagged with the identity `Tag`.
pub struct Tagged<Tag, V> {
    pub value: V,
    pub tag: PhantomData<Tag>,
}

impl<Tag, V> Tagged<Tag, V> {
    /// Tag a value.
    pub fn new(value: V) -> (r: Self)
        ensures
            r.value == value,
    {
        Tagged { value, tag: PhantomData }
    }
}

/// A typed list cell: `head` in front of `tail`.
pub struct Cons<H, T> {
    pub head: H,
    pub tail: T,
}

/// The empty typed list.
#[derive(Debug, Clone, Copy, Default)]
pub struct Nil;

/// An application under construction: its typed list of builder-phase
/// capabilities, newest first.
pub struct App<T> {
    pub capabilities: T,
}

impl App<Nil> {
    /// An app with no capabilities.
    pub fn new() -> (r: Self)
        ensures
            r.capabilities == Nil,
    {
        App { capabilities: Nil }
    }
}

impl<L> App<L> {
    /// Put a builder capability in front of the app's capabilities.
    pub fn attach_cap<C: HasCapTag>(self, cap: C) -> (r: App<Cons<C, L>>)
        ensures
            r.capabilities.head == cap,
            r.capabilities.tail == self.capabilities,
    {
        App { capabilities: Cons { head: cap, tail: self.capabilities } }
    }
}

/// Tag identity of a builder-phase capability store.
pub trait HasCapTag {
    type Tag;
}

/// Builder-phase capability: hooks applied to items, then mounted.
pub trait Capability: HasCapTag + Sized {
    type Output;
    type Value;
    type Hooks;
    type Items;

    fn mount(self) -> Self::Output;
}

/// Hooks plus items, keyed by `Tag`.
pub struct CapStore<Tag, Hooks, Items> {
    pub hooks: Hooks,
    pub items: Items,
    pub tag: PhantomData<Tag>,
}

impl<Tag, Hooks, Items> HasCapTag for CapStore<Tag, Hooks, Items> {
    type Tag = Tag;
}

/// Marker for tags whose store with no hooks mounts as its items.
pub trait PassthroughCapTag {}

/// Fold hooks over items (earliest registered hook first).
pub trait ApplyHooks<Items>: Sized {
    type Output;

    /// What applying these hooks to `items` gives.
    spec fn applied(self, items: Items) -> Self::Output;

    fn apply_hooks(self, items: Items) -> (r: Self::Output)
        ensures
            r == self.applied(items),
    ;
}

/// No hooks: the items as they are.
impl<Items> ApplyHooks<Items> for Nil {
    type Output = Items;

    open spec fn applied(self, items: Items) -> Items {
        items
    }

    fn apply_hooks(self, items: Items) -> (r: Items) {
        items
    }
}

/// Fold registrar hooks over items, per capability tag.
pub trait FoldRegistrarHooks<Tag, Items> {
    type Output;

    fn fold_registrar_hooks(self, items: Items) -> Self::Output;
}

/// Mount every capability of an application.
pub trait FoldMount {
    type Output;

    fn fold_mount(self) -> Self::Output;
}

/// Seal for item lists folded by registrar hooks.
pub trait Sealed {}

/// Item lists that registrar hooks fold over.
pub trait RegistrarItems: Sealed {}

/// Proof token for template registrar folding.
pub struct TemplateHookProof;

/// Proof token for slot registrar folding.
pub struct SlotHookProof;

/// Proof token for migration registrar folding.
pub struct MigrationHookProof;

/// Proof token for command registrar folding.
pub struct CommandHookProof;

impl<Tag, Hooks, Items> CapStore<Tag, Hooks, Items> {
    /// A store of `hooks` and `items`.
    pub fn new(hooks: Hooks, items: Items) -> (r: Self)
        ensures
            r.hooks == hooks,
            r.items == items,
    {
        CapStore { hooks, items, tag: PhantomData }
    }

    /// A store of `items` with no hooks.
    pub fn empty_hooks(items: Items) -> (r: Self)
        where Hooks: Default,
        ensures
            r.items == items,
    {
        Self::new(Hooks::default(), items)
    }

    /// The store with its items transformed by `f`.
    pub fn map_items<F: FnOnce(Items) -> NewItems, NewItems>(self, f: F) -> (r: CapStore<Tag, Hooks, NewItems>)
        requires
            f.requires((self.items,)),
        ensures
            r.hooks == self.hooks,
            f.ensures((self.items,), r.items),
    {
        let CapStore { hooks, items, tag } = self;
        CapStore { hooks, items: f(items), tag: PhantomData }
    }

    /// The store with its hooks transformed by `f`.
    pub fn map_hooks<F: FnOnce(Hooks) -> NewHooks, NewHooks>(self, f: F) -> (r: CapStore<Tag, NewHooks, Items>)
        requires
            f.requires((self.hooks,)),
        ensures
            r.items == self.items,
            f.ensures((self.hooks,), r.hooks),
    {
        let CapStore { hooks, items, tag } = self;
        CapStore { hooks: f(hooks), items, tag: PhantomData }
    }
}

impl<Tag, Hooks, Items> CapStore<Tag, Hooks, Items> {
    /// The store with the hook `hook`, tagged `HTag`, in front of its hooks.
    pub fn add_hook<HTag, H>(self, hook: H) -> (r: CapStore<Tag, Cons<Tagged<HTag, H>, Hooks>, Items>)
        ensures
            r.hooks.head.value == hook,
            r.hooks.tail == self.hooks,
            r.items == self.items,
    {
        let CapStore { hooks, items, tag } = self;
        CapStore { hooks: Cons { head: Tagged::new(hook), tail: hooks }, items, tag: PhantomData }
    }

    /// The store with the item `item`, tagged `ITag`, in front of its items.
    pub fn add_item<ITag, I>(self, item: I) -> (r: CapStore<Tag, Hooks, Cons<Tagged<ITag, I>, Items>>)
        ensures
            r.items.head.value == item,
            r.items.tail == self.items,
            r.hooks == self.hooks,
    {
        let CapStore { hooks, items, tag } = self;
        CapStore { hooks, items: Cons { head: Tagged::new(item), tail: items }, tag: PhantomData }
    }
}

impl<Tag, Items> CapStore<Tag, Nil, Items> {
    /// A store of `items` with no hooks.
    pub fn with_items(items: Items) -> (r: Self)
        ensures
            r.items == items,
    {
        CapStore { hooks: Nil, items, tag: PhantomData }
    }
}

/// Apply a store's hooks to its items, wrap the result and tag it.
pub fn mount_with_hooks<Tag, Hooks: ApplyHooks<Items>, Items, Value, F: FnOnce(Hooks::Output) -> Value>(
    store: CapStore<Tag, Hooks, Items>,
    wrap: F,
) -> (r: Tagged<Tag, Value>)
    requires
        forall|o: Hooks::Output| wrap.requires((o,)),
    ensures
        wrap.ensures((store.hooks.applied(store.items),), r.value),
{
    let CapStore { hooks, items, tag } = store;
    let applied = hooks.apply_hooks(items);
    Tagged::new(wrap(applied))
}

/// The position of the first cell of a typed list.
pub struct Here;

/// The position one cell further than `I`.
pub struct There<I> {
    pub next: PhantomData<I>,
}

/// Find the value tagged `Tag` in a typed list; `Index` is the position of the
/// cell that holds it (inferred by the compiler).
pub trait GetByTag<Tag, Index> {
    type Value;

    /// The value tagged `Tag`.
    spec fn tagged(&self) -> Self::Value;

    fn get_by_tag(&self) -> (r: &Self::Value)
        ensures
            *r == self.tagged(),
    ;
}

/// The first cell holds the value tagged `Tag`.
impl<Tag, V, T> GetByTag<Tag, Here> for Cons<Tagged<Tag, V>, T> {
    type Value = V;

    open spec fn tagged(&self) -> V {
        self.head.value
    }

    fn get_by_tag(&self) -> (r: &V) {
        &self.head.value
    }
}

/// A later cell holds the value tagged `Tag`.
impl<Tag, H, T: GetByTag<Tag, I>, I> GetByTag<Tag, There<I>> for Cons<H, T> {
    type Value = T::Value;

    open spec fn tagged(&self) -> T::Value {
        self.tail.tagged()
    }

    fn get_by_tag(&self) -> (r: &T::Value) {
        self.tail.get_by_tag()
    }
}

/// A mounted application: the typed stack of mounted capability values.
pub struct MountedApp<M> {
    /// The mounted capability values.
    pub capabilities: M,
}

/// Capability tag for the shared database connection.
pub struct DbTag;

} // verus!
