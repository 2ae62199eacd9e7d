//! Chrome slots (head / topbar / right sidebar): contributors registered by
//! plugins, folded per request into the markup that shells inject, and the
//! document title.

use vstd::prelude::*;

use crate::html::{escape_html, push_escaped_html};
use crate::text::{push_str, to_owned};

verus! {

/// Capability tag for the slot registry.
pub struct SlotTag;

/// Bucket tag: contributions to the document `<head>`.
pub struct HeadSlotTag;

/// Bucket tag: items of the top bar.
pub struct TopbarItemsSlotTag;

/// Bucket tag: the right sidebar.
pub struct RightSidebarSlotTag;

/// Identity of the core `<title>` head contributor.
pub struct CoreTitleTag;

/// The default `<title>` head contributor.
pub struct CoreTitle;

/// Which chrome field a contribution is appended to.
#[derive(Debug, Clone, Copy, PartialEq, Eq, Structural)]
pub enum SlotKind {
    Head,
    TopbarItems,
    RightSidebar,
}

/// Context available when folding slots for a request.
#[derive(Debug, Clone)]
pub struct SlotCtx {
    pub name: Option<String>,
    pub role: Option<String>,
    pub is_superuser: bool,
    pub is_staff: bool,
}

impl Default for SlotCtx {
    fn default() -> (r: Self)
        ensures
            r.name is None,
            r.role is None,
            !r.is_superuser,
            !r.is_staff,
    {
        SlotCtx { name: None, role: None, is_superuser: false, is_staff: false }
    }
}

/// The title shown when none is set.
pub const DEFAULT_TITLE: &'static str = "Lariv";

/// The application's document title (empty means the default).
pub struct TitleStore {
    title: String,
}

impl View for TitleStore {
    type V = Seq<char>;

    closed spec fn view(&self) -> Seq<char> {
        self.title@
    }
}

/// The title shown for a stored value: the value, or `Lariv` when empty.
pub open spec fn shown_title(stored: Seq<char>) -> Seq<char> {
    if stored.len() == 0 { DEFAULT_TITLE@ } else { stored }
}

impl TitleStore {
    /// A store holding no title.
    pub fn new() -> (r: Self)
        ensures
            r@ == Seq::<char>::empty(),
    {
        TitleStore { title: String::new() }
    }
}

/// The current document title (`Lariv` unless one was set).
pub fn document_title(store: &TitleStore) -> (r: String)
    ensures
        r@ == shown_title(store@),
{
    if store.title.as_str().is_empty() {
        to_owned(DEFAULT_TITLE)
    } else {
        store.title.clone()
    }
}

/// Set the document title (an empty title restores the default).
pub fn set_document_title(store: &mut TitleStore, title: &str)
    ensures
        final(store)@ == title@,
{
    store.title = to_owned(title);
}

/// `<title>…</title>`.
pub open spec fn title_tag(title: Seq<char>) -> Seq<char> {
    "<title>"@ + escape_html(title) + "</title>"@
}

impl CoreTitle {
    /// The `<title>` of the current document title.
    pub fn render_slot(&self, store: &TitleStore, ctx: &SlotCtx) -> (r: String)
        ensures
            r@ == title_tag(shown_title(store@)),
    {
        let t = document_title(store);
        let mut out = to_owned("<title>");
        push_escaped_html(&mut out, t.as_str());
        push_str(&mut out, "</title>");
        out
    }
}

/// Folded chrome markup injected into shells by page renders.
pub struct ShellChrome {
    pub head: String,
    pub topbar_items: String,
    pub right_sidebar: String,
}

/// Chrome as values: head, top bar, right sidebar.
pub type ChromeView = (Seq<char>, Seq<char>, Seq<char>);

/// The chrome before any contribution: the title in the head.
pub open spec fn base_chrome(title: Seq<char>) -> ChromeView {
    (title_tag(title), seq![], seq![])
}

/// `c` with `markup` appended to the bucket `kind`.
pub open spec fn push_chrome(c: ChromeView, kind: SlotKind, markup: Seq<char>) -> ChromeView {
    match kind {
        SlotKind::Head => (c.0 + markup, c.1, c.2),
        SlotKind::TopbarItems => (c.0, c.1 + markup, c.2),
        SlotKind::RightSidebar => (c.0, c.1, c.2 + markup),
    }
}

/// The chrome after appending `contribs` in order.
pub open spec fn fold_contribs(c: ChromeView, contribs: Seq<(SlotKind, Seq<char>)>) -> ChromeView
    decreases contribs.len(),
{
    if contribs.len() == 0 {
        c
    } else {
        push_chrome(fold_contribs(c, contribs.drop_last()), contribs.last().0, contribs.last().1)
    }
}

impl ShellChrome {
    /// The chrome as values.
    pub open spec fn chrome(&self) -> ChromeView {
        (self.head@, self.topbar_items@, self.right_sidebar@)
    }

    /// Chrome with only the document title in the head.
    pub fn with_title(title: &str) -> (r: Self)
        ensures
            r.chrome() == base_chrome(title@),
    {
        let mut head = to_owned("<title>");
        push_escaped_html(&mut head, title);
        push_str(&mut head, "</title>");
        ShellChrome { head, topbar_items: String::new(), right_sidebar: String::new() }
    }

    /// Append `markup` to the bucket of `kind`.
    pub fn push(&mut self, kind: SlotKind, markup: &str)
        ensures
            final(self).chrome() == push_chrome(old(self).chrome(), kind, markup@),
    {
        match kind {
            SlotKind::Head => push_str(&mut self.head, markup),
            SlotKind::TopbarItems => push_str(&mut self.topbar_items, markup),
            SlotKind::RightSidebar => push_str(&mut self.right_sidebar, markup),
        }
    }
}

/// The slot registry: contributors by identity tag and bucket, the most
/// recently added first.
pub struct SlotCapability {
    pub slots: Vec<(String, SlotKind)>,
}

/// The registry as values.
pub open spec fn slots_view(s: Seq<(String, SlotKind)>) -> Seq<(Seq<char>, SlotKind)> {
    s.map_values(|e: (String, SlotKind)| (e.0@, e.1))
}

/// Index of the first entry tagged `tag`, or `-1`.
pub open spec fn slot_index(s: Seq<(Seq<char>, SlotKind)>, tag: Seq<char>) -> int
    decreases s.len(),
{
    if s.len() == 0 {
        -1
    } else if s[0].0 == tag {
        0
    } else {
        let r = slot_index(s.drop_first(), tag);
        if r < 0 { -1 } else { r + 1 }
    }
}

/// `slot_index` finds the first entry with the tag.
pub proof fn lemma_slot_index(s: Seq<(Seq<char>, SlotKind)>, tag: Seq<char>)
    ensures
        -1 <= slot_index(s, tag) < s.len(),
        slot_index(s, tag) >= 0 ==> s[slot_index(s, tag)].0 == tag,
        forall|j: int| 0 <= j < s.len() && (slot_index(s, tag) < 0 || j < slot_index(s, tag)) ==> (#[trigger] s[j]).0 != tag,
    decreases s.len(),
{
    if s.len() > 0 && s[0].0 != tag {
        lemma_slot_index(s.drop_first(), tag);
        assert forall|j: int| 0 < j < s.len() implies s[j] == s.drop_first()[j - 1] by {}
    }
}

/// The contributions of the slots in registration order (oldest first),
/// pairing each slot's bucket with its rendered markup.
pub open spec fn contributions(s: Seq<(Seq<char>, SlotKind)>, rendered: Seq<String>) -> Seq<(SlotKind, Seq<char>)>
    recommends
        s.len() == rendered.len(),
{
    Seq::new(s.len(), |i: int| (s[s.len() - 1 - i].1, rendered[s.len() - 1 - i]@))
}

impl SlotCapability {
    /// An empty registry.
    pub fn new() -> (r: Self)
        ensures
            slots_view(r.slots@) == Seq::<(Seq<char>, SlotKind)>::empty(),
    {
        let r = SlotCapability { slots: Vec::new() };
        assert(slots_view(r.slots@) =~= Seq::<(Seq<char>, SlotKind)>::empty());
        r
    }

    /// Register a contributor under `tag` in bucket `kind` (it goes first).
    pub fn add(self, tag: &str, kind: SlotKind) -> (r: Self)
        ensures
            slots_view(r.slots@) == seq![(tag@, kind)] + slots_view(self.slots@),
    {
        let mut slots = self.slots;
        let ghost before = slots_view(slots@);
        slots.insert(0, (to_owned(tag), kind));
        assert(slots_view(slots@) =~= seq![(tag@, kind)] + before);
        SlotCapability { slots }
    }

    /// The bucket of the contributor registered under `tag` (the newest one).
    pub fn get_slot(&self, tag: &str) -> (r: Option<SlotKind>)
        ensures
            match r {
                Some(k) => slot_index(slots_view(self.slots@), tag@) >= 0
                    && slots_view(self.slots@)[slot_index(slots_view(self.slots@), tag@)].1 == k,
                None => slot_index(slots_view(self.slots@), tag@) < 0,
            },
    {
        let ghost s = slots_view(self.slots@);
        proof {
            lemma_slot_index(s, tag@);
        }
        let mut i: usize = 0;
        while i < self.slots.len()
            invariant
                i <= self.slots.len(),
                s == slots_view(self.slots@),
                forall|j: int| 0 <= j < i ==> (#[trigger] s[j]).0 != tag@,
                -1 <= slot_index(s, tag@) < s.len(),
                slot_index(s, tag@) >= 0 ==> s[slot_index(s, tag@)].0 == tag@,
                forall|j: int| 0 <= j < s.len() && (slot_index(s, tag@) < 0 || j < slot_index(s, tag@)) ==> (#[trigger] s[j]).0 != tag@,
            decreases self.slots.len() - i,
        {
            if crate::text::str_eq(self.slots[i].0.as_str(), tag) {
                assert(s[i as int].0 == tag@);
                return Some(self.slots[i].1);
            }
            i = i + 1;
        }
        None
    }

    /// Move the contributor registered under `tag` (the newest one) to bucket `kind`.
    pub fn replace_slot(self, tag: &str, kind: SlotKind) -> (r: Self)
        ensures
            slots_view(r.slots@) == (if slot_index(slots_view(self.slots@), tag@) >= 0 {
                slots_view(self.slots@).update(slot_index(slots_view(self.slots@), tag@), (tag@, kind))
            } else {
                slots_view(self.slots@)
            }),
    {
        let ghost s = slots_view(self.slots@);
        proof {
            lemma_slot_index(s, tag@);
        }
        let mut slots = self.slots;
        let mut i: usize = 0;
        let mut found = false;
        while !found && i < slots.len()
            invariant
                i <= slots.len(),
                s == slots_view(slots@),
                forall|j: int| 0 <= j < i ==> (#[trigger] s[j]).0 != tag@,
                found ==> i < s.len() && s[i as int].0 == tag@,
            decreases slots.len() - i, if found { 0int } else { 1int },
        {
            if crate::text::str_eq(slots[i].0.as_str(), tag) {
                found = true;
            } else {
                i = i + 1;
            }
        }
        if found {
            assert(slot_index(s, tag@) == i);
            slots.set(i, (to_owned(tag), kind));
            assert(slots_view(slots@) =~= s.update(i as int, (tag@, kind)));
        } else {
            assert(slot_index(s, tag@) < 0);
        }
        SlotCapability { slots }
    }

    /// Fold the contributors into chrome: starting from the title, each
    /// slot's rendered markup (`rendered[i]` for slot `i`) is appended to its
    /// bucket, the earliest registration first.
    pub fn fold_chrome(&self, title: &str, rendered: &Vec<String>) -> (r: ShellChrome)
        requires
            rendered.len() == self.slots.len(),
        ensures
            r.chrome() == fold_contribs(base_chrome(title@), contributions(slots_view(self.slots@), rendered@)),
    {
        let ghost s = slots_view(self.slots@);
        let mut chrome = ShellChrome::with_title(title);
        let n = self.slots.len();
        let mut k: usize = 0;
        while k < n
            invariant
                k <= n,
                n == self.slots.len(),
                n == rendered.len(),
                s == slots_view(self.slots@),
                chrome.chrome() == fold_contribs(base_chrome(title@), contributions(s, rendered@).take(k as int)),
            decreases n - k,
        {
            let idx = n - 1 - k;
            chrome.push(self.slots[idx].1, rendered[idx].as_str());
            proof {
                let c = contributions(s, rendered@);
                assert(c.take(k + 1).drop_last() == c.take(k as int));
                assert(c.take(k + 1).last() == c[k as int]);
                assert(c[k as int] == (s[idx as int].1, rendered@[idx as int]@));
            }
            k = k + 1;
        }
        assert(contributions(s, rendered@).take(n as int) == contributions(s, rendered@));
        chrome
    }
}

/// The slot marker of contributor `T` in bucket `Kind`: a zero-sized type
/// value naming the pair.
pub struct SlotOf<Kind, T> {
    kind: core::marker::PhantomData<Kind>,
    slot: core::marker::PhantomData<T>,
}

impl<Kind, T> SlotOf<Kind, T> {
    /// The marker.
    pub fn new() -> (r: Self) {
        SlotOf { kind: core::marker::PhantomData, slot: core::marker::PhantomData }
    }
}

/// Implemented by what contributes slots: it registers them on the registry.
pub trait SlotRegistrar: Sized {
    /// The registry with this contributor's slots added.
    fn register_slots(self, cap: SlotCapability) -> SlotCapability;
}

} // verus!
