//! GUI state: element identity, per-element state kept in a least-recently-used cache, and the
//! hover, focus, active and edit state machine that widgets share.

use crate::event::{Key, KeyMod, Mouse};
use crate::gui::keys::{KeyState, KeyStateView};
use crate::gui::mouse::{MouseState, MouseStateView};
use crate::gui::theme::Theme;
use crate::shape::{rect_contains, Contains, Point, PointI2, Rect};
use crate::vector::{Vector, VectorI2};
use lru::LruCache;
use std::collections::hash_map::DefaultHasher;
use std::hash::Hasher;
use vstd::prelude::*;
use vstd::std_specs::hash::DefaultHasherAdditionalSpecFns;
use vstd::string::{StrSliceExecFns, StringSliceAdditionalSpecFns};

verus! {

/// The number of elements whose state is kept.
pub const ELEMENT_CACHE_SIZE: usize = 128;

/// A hashed element identifier for internal state management.
#[derive(Debug, Copy, Clone, PartialEq, Eq, Hash, Structural)]
pub struct ElementId(pub u64);

impl Default for ElementId {
    /// The identifier `0`.
    fn default() -> (e: Self)
        ensures
            e.0 == 0,
    {
        ElementId(0)
    }
}

impl From<ElementId> for u64 {
    /// The identifier's number.
    fn from(id: ElementId) -> (n: u64)
        ensures
            n == id.0,
    {
        id.0
    }
}

impl vstd::std_specs::convert::FromSpecImpl<ElementId> for u64 {
    open spec fn obeys_from_spec() -> bool {
        true
    }

    open spec fn from_spec(id: ElementId) -> u64 {
        id.0
    }
}

/// An identifier for a texture the renderer owns.
#[derive(Debug, Copy, Clone, PartialEq, Eq, Hash, Structural)]
pub struct TextureId(pub usize);

/// An identifier for a font.
#[derive(Debug, Copy, Clone, PartialEq, Eq, Hash, Structural)]
pub struct FontId(pub u64);

/// UI texture with source and destination.
#[derive(Debug, Copy, Clone, PartialEq)]
pub struct Texture {
    pub id: TextureId,
    pub element_id: ElementId,
    pub src: Option<Rect<i32>>,
    pub dst: Option<Rect<i32>>,
    pub visible: bool,
    pub font_id: FontId,
    pub font_size: u32,
}

impl Texture {
    /// A visible texture.
    pub fn new(
        id: TextureId,
        element_id: ElementId,
        src: Option<Rect<i32>>,
        dst: Option<Rect<i32>>,
        font_id: FontId,
        font_size: u32,
    ) -> (t: Self)
        ensures
            t == (Texture { id, element_id, src, dst, visible: true, font_id, font_size }),
    {
        Texture { id, element_id, src, dst, visible: true, font_id, font_size }
    }
}

/// Internal tracked UI element state.
#[derive(Debug, Clone)]
pub struct ElementState {
    pub scroll: VectorI2,
    pub text_edit: String,
    pub current_tab: usize,
    pub expanded: bool,
}

/// The state an element starts with: no scroll, no text, the first tab, collapsed.
pub open spec fn fresh_state(s: ElementState) -> bool {
    &&& s.scroll@ == seq![0i32, 0i32]
    &&& s.text_edit@ == Seq::<char>::empty()
    &&& s.current_tab == 0
    &&& !s.expanded
}

impl ElementState {
    /// The state an element starts with.
    pub fn fresh() -> (s: Self)
        ensures
            fresh_state(s),
    {
        let s = ElementState {
            scroll: Vector::new([0, 0]),
            text_edit: String::new(),
            current_tab: 0,
            expanded: false,
        };
        assert(s.scroll@ =~= seq![0i32, 0i32]);
        s
    }
}

#[verifier::external_type_specification]
#[verifier::external_body]
#[verifier::reject_recursive_types(K)]
#[verifier::reject_recursive_types(V)]
#[verifier::reject_recursive_types(S)]
pub struct ExLruCache<K, V, S>(LruCache<K, V, S>);

#[verifier::external_type_specification]
#[verifier::external_body]
pub struct ExLruHasher(lru::DefaultHasher);

/// The entries of an element cache, most recently used first.
pub uninterp spec fn lru_entries(cache: LruCache<u64, ElementState>) -> Seq<(u64, ElementState)>;

/// The number of entries an element cache was made to hold.
pub uninterp spec fn lru_capacity(cache: LruCache<u64, ElementState>) -> nat;

/// Whether an entry has key `k`.
pub open spec fn has_key(entries: Seq<(u64, ElementState)>, k: u64) -> bool {
    exists|i: int| 0 <= i < entries.len() && #[trigger] entries[i].0 == k
}

/// The position of the entry with key `k`.
pub open spec fn key_index(entries: Seq<(u64, ElementState)>, k: u64) -> int {
    choose|i: int| 0 <= i < entries.len() && #[trigger] entries[i].0 == k
}

/// Whether no two entries share a key.
pub open spec fn keys_distinct(entries: Seq<(u64, ElementState)>) -> bool {
    forall|i: int, j: int|
        0 <= i < entries.len() && 0 <= j < entries.len() && i != j ==> #[trigger] entries[i].0
            != #[trigger] entries[j].0
}

/// The value stored under `k`.
pub open spec fn lookup(entries: Seq<(u64, ElementState)>, k: u64) -> Option<ElementState> {
    if has_key(entries, k) {
        Some(entries[key_index(entries, k)].1)
    } else {
        None
    }
}

/// The entries after `k` is used: its entry moves to the front.
pub open spec fn promote(entries: Seq<(u64, ElementState)>, k: u64) -> Seq<(u64, ElementState)> {
    if has_key(entries, k) {
        seq![entries[key_index(entries, k)]] + entries.remove(key_index(entries, k))
    } else {
        entries
    }
}

/// The entries after `k` is put with `v`: the entry goes to the front, replacing the old entry
/// of `k`, or else the least recently used entry when the cache is full.
pub open spec fn after_put(
    entries: Seq<(u64, ElementState)>,
    k: u64,
    v: ElementState,
    cap: nat,
) -> Seq<(u64, ElementState)> {
    if has_key(entries, k) {
        seq![(k, v)] + entries.remove(key_index(entries, k))
    } else if entries.len() >= cap {
        seq![(k, v)] + entries.drop_last()
    } else {
        seq![(k, v)] + entries
    }
}

/// The entries after `k` is removed.
pub open spec fn after_pop(entries: Seq<(u64, ElementState)>, k: u64) -> Seq<(u64, ElementState)> {
    if has_key(entries, k) {
        entries.remove(key_index(entries, k))
    } else {
        entries
    }
}

/// `LruCache::new`: an empty cache that holds at most `cap` entries.
#[verifier::external_body]
fn lru_new(cap: usize) -> (c: LruCache<u64, ElementState>)
    requires
        cap > 0,
    ensures
        lru_entries(c) == Seq::<(u64, ElementState)>::empty(),
        lru_capacity(c) == cap,
{
    LruCache::new(std::num::NonZeroUsize::new(cap).unwrap())
}

/// `LruCache::peek`: the value under `k`, leaving the order of entries unchanged.
#[verifier::external_body]
fn lru_peek(c: &LruCache<u64, ElementState>, k: u64) -> (r: Option<ElementState>)
    ensures
        r == lookup(lru_entries(*c), k),
{
    c.peek(&k).cloned()
}

/// `LruCache::get`: the value under `k`, whose entry becomes the most recently used.
#[verifier::external_body]
fn lru_get(c: &mut LruCache<u64, ElementState>, k: u64) -> (r: Option<ElementState>)
    ensures
        r == lookup(lru_entries(*old(c)), k),
        lru_entries(*final(c)) == promote(lru_entries(*old(c)), k),
        lru_capacity(*final(c)) == lru_capacity(*old(c)),
{
    c.get(&k).cloned()
}

/// `LruCache::put`: stores `v` under `k` as the most recently used entry, dropping the least
/// recently used entry when a new key finds the cache full; returns the value `k` had.
#[verifier::external_body]
fn lru_put(c: &mut LruCache<u64, ElementState>, k: u64, v: ElementState) -> (r: Option<
    ElementState,
>)
    ensures
        r == lookup(lru_entries(*old(c)), k),
        lru_entries(*final(c)) == after_put(lru_entries(*old(c)), k, v, lru_capacity(*old(c))),
        lru_capacity(*final(c)) == lru_capacity(*old(c)),
{
    c.put(k, v)
}

/// `LruCache::pop`: removes and returns the value under `k`.
#[verifier::external_body]
fn lru_pop(c: &mut LruCache<u64, ElementState>, k: u64) -> (r: Option<ElementState>)
    ensures
        r == lookup(lru_entries(*old(c)), k),
        lru_entries(*final(c)) == after_pop(lru_entries(*old(c)), k),
        lru_capacity(*final(c)) == lru_capacity(*old(c)),
{
    c.pop(&k)
}

/// Removing an entry keeps the keys distinct and the cache no larger.
pub proof fn lemma_after_pop(entries: Seq<(u64, ElementState)>, k: u64)
    requires
        keys_distinct(entries),
    ensures
        keys_distinct(after_pop(entries, k)),
        after_pop(entries, k).len() <= entries.len(),
{
    if has_key(entries, k) {
        let i = key_index(entries, k);
        let r = entries.remove(i);
        assert forall|a: int, b: int|
            0 <= a < r.len() && 0 <= b < r.len() && a != b implies #[trigger] r[a].0 != #[trigger] r[b].0 by {
            let ia = if a < i { a } else { a + 1 };
            let ib = if b < i { b } else { b + 1 };
            assert(r[a].0 == entries[ia].0);
            assert(r[b].0 == entries[ib].0);
        }
    }
}

/// Putting keeps keys distinct and the cache within its capacity, and the value put is the one
/// found under its key afterwards.
pub proof fn lemma_after_put(entries: Seq<(u64, ElementState)>, k: u64, v: ElementState, cap: nat)
    requires
        keys_distinct(entries),
        entries.len() <= cap,
        cap > 0,
    ensures
        keys_distinct(after_put(entries, k, v, cap)),
        after_put(entries, k, v, cap).len() <= cap,
        lookup(after_put(entries, k, v, cap), k) == Some(v),
        forall|j: u64|
            j != k && has_key(after_put(entries, k, v, cap), j) ==> lookup(
                after_put(entries, k, v, cap),
                j,
            ) == lookup(entries, j),
{
    let r = after_put(entries, k, v, cap);
    assert(r[0].0 == k);
    if has_key(entries, k) {
        let i = key_index(entries, k);
        let rest = entries.remove(i);
        assert forall|a: int, b: int|
            0 <= a < r.len() && 0 <= b < r.len() && a != b implies #[trigger] r[a].0
            != #[trigger] r[b].0 by {
            let ia = if a == 0 { i } else if a - 1 < i { a - 1 } else { a };
            let ib = if b == 0 { i } else if b - 1 < i { b - 1 } else { b };
            assert(r[a].0 == entries[ia].0);
            assert(r[b].0 == entries[ib].0);
        }
    } else if entries.len() >= cap {
        assert forall|a: int, b: int|
            0 <= a < r.len() && 0 <= b < r.len() && a != b implies #[trigger] r[a].0
            != #[trigger] r[b].0 by {
            if a > 0 {
                assert(r[a].0 == entries[a - 1].0);
            }
            if b > 0 {
                assert(r[b].0 == entries[b - 1].0);
            }
        }
    } else {
        assert forall|a: int, b: int|
            0 <= a < r.len() && 0 <= b < r.len() && a != b implies #[trigger] r[a].0
            != #[trigger] r[b].0 by {
            if a > 0 {
                assert(r[a].0 == entries[a - 1].0);
            }
            if b > 0 {
                assert(r[b].0 == entries[b - 1].0);
            }
        }
    }
    assert(has_key(r, k));
    assert(key_index(r, k) == 0);
    assert forall|j: u64| j != k && has_key(r, j) implies lookup(r, j) == lookup(entries, j) by {
        let x = key_index(r, j);
        assert(x != 0);
        if has_key(entries, k) {
            let i = key_index(entries, k);
            let y = if x - 1 < i { x - 1 } else { x };
            assert(entries[y] == r[x]);
            assert(has_key(entries, j));
            assert(key_index(entries, j) == y);
        } else {
            assert(entries[x - 1] == r[x]);
            assert(has_key(entries, j));
            assert(key_index(entries, j) == x - 1);
        }
    }
}

} // verus!

verus! {

/// The identifier of a label under an optional seed: the hash of the label's bytes, the end
/// marker of a string, and the seed's bytes in little-endian order.
pub open spec fn id_hash(label: Seq<u8>, seed: Option<u64>) -> u64 {
    let written = seq![label, seq![0xffu8]];
    match seed {
        Some(s) => DefaultHasher::spec_finish(written.push(u64_le_bytes(s))),
        None => DefaultHasher::spec_finish(written),
    }
}

/// The bytes of a `u64`, least significant first.
pub open spec fn u64_le_bytes(v: u64) -> Seq<u8> {
    Seq::new(8, |i: int| ((v >> (8 * i) as u64) & 0xff) as u8)
}

/// The bytes of a `u64`, least significant first.
fn le_bytes(v: u64) -> (b: [u8; 8])
    ensures
        b@ == u64_le_bytes(v),
{
    let b = [
        (v & 0xff) as u8,
        ((v >> 8u64) & 0xff) as u8,
        ((v >> 16u64) & 0xff) as u8,
        ((v >> 24u64) & 0xff) as u8,
        ((v >> 32u64) & 0xff) as u8,
        ((v >> 40u64) & 0xff) as u8,
        ((v >> 48u64) & 0xff) as u8,
        ((v >> 56u64) & 0xff) as u8,
    ];
    assert(v >> 0u64 == v) by (bit_vector);
    assert(b@ =~= u64_le_bytes(v));
    b
}

/// Hashes a label, and the seed on top of the ID stack when there is one, into an element
/// identifier.
pub fn hash_label(label: &str, seed: Option<u64>) -> (id: ElementId)
    ensures
        id.0 == id_hash(label.spec_bytes(), seed),
{
    let mut hasher = DefaultHasher::new();
    hasher.write(label.as_bytes());
    let marker: [u8; 1] = [0xff];
    assert(marker@ =~= seq![0xffu8]);
    hasher.write(marker.as_slice());
    if let Some(s) = seed {
        let bytes = le_bytes(s);
        hasher.write(bytes.as_slice());
    }
    proof {
        let written = seq![label.spec_bytes(), seq![0xffu8]];
        match seed {
            Some(s) => assert(hasher@ =~= written.push(u64_le_bytes(s))),
            None => assert(hasher@ =~= written),
        }
    }
    ElementId(hasher.finish())
}

/// Whether `label` holds `##` at character `i`.
pub open spec fn id_marker_at(label: Seq<char>, i: int) -> bool {
    0 <= i && i + 1 < label.len() && label[i] == '#' && label[i + 1] == '#'
}

/// The part of a label shown to the user: everything before its first `##`.
pub open spec fn visible_label(label: Seq<char>) -> Seq<char> {
    if exists|i: int| #[trigger] id_marker_at(label, i) {
        let i = choose|i: int|
            #[trigger] id_marker_at(label, i) && forall|j: int| 0 <= j < i ==> !id_marker_at(label, j);
        label.subrange(0, i)
    } else {
        label
    }
}

/// Strips out any ID-specific pattern from a label: returns the part before the first `##`.
pub fn get_label(label: &str) -> (r: &str)
    ensures
        r@ == visible_label(label@),
{
    let n = label.unicode_len();
    let mut i: usize = 0;
    while n > 0 && i < n - 1
        invariant
            n == label@.len(),
            i <= n,
            forall|j: int| 0 <= j < i ==> !id_marker_at(label@, j),
        decreases n - i,
    {
        if label.get_char(i) == '#' && label.get_char(i + 1) == '#' {
            proof {
                assert(id_marker_at(label@, i as int));
                let k = choose|k: int|
                    #[trigger] id_marker_at(label@, k) && forall|j: int|
                        0 <= j < k ==> !id_marker_at(label@, j);
                assert(k == i) by {
                    if k < i {
                        assert(!id_marker_at(label@, k));
                    }
                    if k > i {
                        assert(!id_marker_at(label@, i as int));
                    }
                }
            }
            return label.substring_char(0, i);
        }
        i += 1;
    }
    proof {
        assert forall|j: int| !id_marker_at(label@, j) by {
            if 0 <= j < i {
            }
        }
        assert(label@.subrange(0, n as int) =~= label@);
    }
    label.substring_char(0, n)
}

} // verus!

verus! {

/// A saved UI rendering position: previous and current cursor, previous and current line height.
pub type CursorFrame = (PointI2, PointI2, i32, i32);

/// Internal tracked UI state.
#[derive(Debug)]
pub struct UiState {
    pub(crate) cursor: PointI2,
    pub(crate) pcursor: PointI2,
    pub(crate) column_offset: i32,
    pub(crate) line_height: i32,
    pub(crate) pline_height: i32,
    pub(crate) cursor_stack: Vec<CursorFrame>,
    pub(crate) offset_stack: Vec<i32>,
    pub(crate) id_stack: Vec<u64>,
    pub(crate) next_width: Option<i32>,
    pub(crate) textures: Vec<Texture>,
    pub(crate) disabled: bool,
    pub(crate) mouse: MouseState,
    pub(crate) mouse_offset: Option<PointI2>,
    pub(crate) pmouse: MouseState,
    pub(crate) keys: KeyState,
    pub(crate) elements: LruCache<u64, ElementState>,
    pub(crate) active: Option<ElementId>,
    pub(crate) hovered: Option<ElementId>,
    pub(crate) focused: Option<ElementId>,
    pub(crate) editing: Option<ElementId>,
    pub(crate) last_focusable: Option<ElementId>,
    pub(crate) last_size: Option<Rect<i32>>,
}

/// The abstract UI state.
pub struct UiView {
    pub cursor: PointI2,
    pub pcursor: PointI2,
    pub column_offset: i32,
    pub line_height: i32,
    pub pline_height: i32,
    pub cursor_stack: Seq<CursorFrame>,
    pub offset_stack: Seq<i32>,
    pub id_stack: Seq<u64>,
    pub next_width: Option<i32>,
    pub textures: Seq<Texture>,
    pub disabled: bool,
    pub mouse: MouseStateView,
    pub mouse_offset: Option<PointI2>,
    pub pmouse: MouseStateView,
    pub keys: KeyStateView,
    pub elements: Seq<(u64, ElementState)>,
    pub active: Option<ElementId>,
    pub hovered: Option<ElementId>,
    pub focused: Option<ElementId>,
    pub editing: Option<ElementId>,
    pub last_focusable: Option<ElementId>,
    pub last_size: Option<Rect<i32>>,
}

impl View for UiState {
    type V = UiView;

    closed spec fn view(&self) -> UiView {
        UiView {
            cursor: self.cursor,
            pcursor: self.pcursor,
            column_offset: self.column_offset,
            line_height: self.line_height,
            pline_height: self.pline_height,
            cursor_stack: self.cursor_stack@,
            offset_stack: self.offset_stack@,
            id_stack: self.id_stack@,
            next_width: self.next_width,
            textures: self.textures@,
            disabled: self.disabled,
            mouse: self.mouse@,
            mouse_offset: self.mouse_offset,
            pmouse: self.pmouse@,
            keys: self.keys@,
            elements: lru_entries(self.elements),
            active: self.active,
            hovered: self.hovered,
            focused: self.focused,
            editing: self.editing,
            last_focusable: self.last_focusable,
            last_size: self.last_size,
        }
    }
}

/// Whether `opt` holds `id`.
pub open spec fn holds(opt: Option<ElementId>, id: ElementId) -> bool {
    opt == Some(id)
}

/// The mouse position, moved back by the mouse offset when there is one.
pub open spec fn offset_pos(pos: Seq<i32>, offset: Option<PointI2>) -> (int, int) {
    match offset {
        Some(o) => (pos[0] - o@[0], pos[1] - o@[1]),
        None => (pos[0] as int, pos[1] as int),
    }
}

/// Whether the mouse position, moved back by the offset, fits an `i32`.
pub open spec fn offset_fits(pos: Seq<i32>, offset: Option<PointI2>) -> bool {
    let p = offset_pos(pos, offset);
    i32::MIN <= p.0 <= i32::MAX && i32::MIN <= p.1 <= i32::MAX
}

impl UiView {
    /// Whether `id` is active: the UI is enabled and `id` is the active element.
    pub open spec fn is_active(self, id: ElementId) -> bool {
        !self.disabled && holds(self.active, id)
    }

    /// Whether `id` is hovered.
    pub open spec fn is_hovered(self, id: ElementId) -> bool {
        holds(self.hovered, id)
    }

    /// Whether `id` is focused: the UI is enabled and `id` is the focused element.
    pub open spec fn is_focused(self, id: ElementId) -> bool {
        !self.disabled && holds(self.focused, id)
    }

    /// Whether `id` is being edited: the UI is enabled and `id` is the edited element.
    pub open spec fn is_editing(self, id: ElementId) -> bool {
        !self.disabled && holds(self.editing, id)
    }

    /// Whether the left mouse button is held down.
    pub open spec fn left_down(self) -> bool {
        self.mouse.pressed.contains(Mouse::Left)
    }

    /// The mouse position relative to the current offset.
    pub open spec fn mouse_pos(self) -> (int, int) {
        offset_pos(self.mouse.pos, self.mouse_offset)
    }

    /// Whether the relative mouse positions fit an `i32`.
    pub open spec fn mouse_fits(self) -> bool {
        offset_fits(self.mouse.pos, self.mouse_offset) && offset_fits(
            self.pmouse.pos,
            self.mouse_offset,
        )
    }

    /// The state of element `id`, or the state an element starts with.
    pub open spec fn element(self, id: ElementId) -> Option<ElementState> {
        lookup(self.elements, id.0)
    }

    /// The state after a mouse click is released over a hovered, active element: it takes focus.
    pub open spec fn clicked(self, id: ElementId) -> bool {
        !self.left_down() && self.is_hovered(id) && self.is_active(id)
    }
}

/// The element state after `f` replaces one field of the existing state, or of a fresh one.
pub open spec fn updated_entries(
    entries: Seq<(u64, ElementState)>,
    id: ElementId,
    v: ElementState,
) -> Seq<(u64, ElementState)> {
    after_put(entries, id.0, v, ELEMENT_CACHE_SIZE as nat)
}

impl UiState {
    /// The well-formedness of the UI state: held keys recorded once, element keys distinct, and
    /// the element cache made for, and within, its size.
    pub closed spec fn wf(&self) -> bool {
        &&& self.keys.wf()
        &&& keys_distinct(lru_entries(self.elements))
        &&& lru_entries(self.elements).len() <= ELEMENT_CACHE_SIZE
        &&& lru_capacity(self.elements) == ELEMENT_CACHE_SIZE
    }

    /// A well-formed state keeps its element keys distinct and within the cache size.
    pub proof fn lemma_wf(&self)
        requires
            self.wf(),
        ensures
            keys_distinct(self@.elements),
            self@.elements.len() <= ELEMENT_CACHE_SIZE,
    {
    }

    /// Constructs the UI state of a new frame sequence: cursor at the origin, nothing pushed,
    /// hovered, focused, active or edited, and no element state.
    pub fn new() -> (s: Self)
        ensures
            s.wf(),
            s@.cursor@ == seq![0i32, 0i32],
            s@.pcursor@ == seq![0i32, 0i32],
            s@.column_offset == 0,
            s@.line_height == 0,
            s@.pline_height == 0,
            s@.cursor_stack.len() == 0,
            s@.offset_stack.len() == 0,
            s@.id_stack.len() == 0,
            s@.next_width is None,
            s@.textures.len() == 0,
            !s@.disabled,
            s@.mouse_offset is None,
            s@.mouse.pressed.is_empty(),
            s@.mouse.pos == seq![0i32, 0i32],
            s@.pmouse.pos == seq![0i32, 0i32],
            s@.mouse.clicked.is_empty(),
            s@.keys.pressed.is_empty(),
            s@.keys.entered is None,
            s@.elements.len() == 0,
            s@.active is None,
            s@.hovered is None,
            s@.focused is None,
            s@.editing is None,
            s@.last_focusable is None,
            s@.last_size is None,
    {
        let s = UiState {
            cursor: Point::new([0, 0]),
            pcursor: Point::new([0, 0]),
            column_offset: 0,
            line_height: 0,
            pline_height: 0,
            cursor_stack: Vec::new(),
            offset_stack: Vec::new(),
            id_stack: Vec::new(),
            next_width: None,
            textures: Vec::new(),
            disabled: false,
            mouse: MouseState::default(),
            mouse_offset: None,
            pmouse: MouseState::default(),
            keys: KeyState::new(),
            elements: lru_new(ELEMENT_CACHE_SIZE),
            active: None,
            hovered: None,
            focused: None,
            editing: None,
            last_focusable: None,
            last_size: None,
        };
        assert(s.cursor@ =~= seq![0i32, 0i32]);
        assert(s.pcursor@ =~= seq![0i32, 0i32]);
        s
    }

    /// Returns the identifier of a label, seeded by the top of the ID stack.
    pub fn get_id(&self, label: &str) -> (id: ElementId)
        ensures
            id.0 == id_hash(
                label.spec_bytes(),
                if self@.id_stack.len() > 0 {
                    Some(self@.id_stack.last())
                } else {
                    None
                },
            ),
    {
        let seed = if self.id_stack.len() > 0 {
            Some(self.id_stack[self.id_stack.len() - 1])
        } else {
            None
        };
        hash_label(label, seed)
    }

    /// Returns the current UI rendering position.
    pub fn cursor(&self) -> (p: PointI2)
        ensures
            p == self@.cursor,
    {
        self.cursor
    }

    /// Set the current UI rendering position.
    pub fn set_cursor(&mut self, cursor: PointI2)
        requires
            old(self).wf(),
        ensures
            final(self).wf(),
            final(self)@ == (UiView { cursor, ..old(self)@ }),
    {
        self.cursor = cursor;
    }

    /// Returns the previous UI rendering position.
    pub fn pcursor(&self) -> (p: PointI2)
        ensures
            p == self@.pcursor,
    {
        self.pcursor
    }

    /// Returns the current offset for the current UI rendering position.
    pub fn column_offset(&self) -> (o: i32)
        ensures
            o == self@.column_offset,
    {
        self.column_offset
    }

    /// Set an offset for the current UI rendering position: it is pushed, and moves the cursor
    /// and the column offset right.
    pub fn inc_column_offset(&mut self, offset: i32)
        requires
            old(self).wf(),
            i32::MIN <= old(self)@.cursor@[0] + offset <= i32::MAX,
            i32::MIN <= old(self)@.column_offset + offset <= i32::MAX,
        ensures
            final(self).wf(),
            final(self)@ == (UiView {
                offset_stack: old(self)@.offset_stack.push(offset),
                cursor: final(self)@.cursor,
                column_offset: (old(self)@.column_offset + offset) as i32,
                ..old(self)@
            }),
            final(self)@.cursor@ == seq![(old(self)@.cursor@[0] + offset) as i32, old(self)@.cursor@[1]],
    {
        self.offset_stack.push(offset);
        let x = self.cursor.x() + offset;
        let y = self.cursor.y();
        self.cursor = Point::new([x, y]);
        self.column_offset = self.column_offset + offset;
        assert(self.cursor@ =~= seq![(old(self)@.cursor@[0] + offset) as i32, old(self)@.cursor@[1]]);
    }

    /// Restore the last offset pushed for the current UI rendering position, or none when
    /// nothing was pushed.
    pub fn dec_column_offset(&mut self)
        requires
            old(self).wf(),
            ({
                let o = if old(self)@.offset_stack.len() > 0 {
                    old(self)@.offset_stack.last() as int
                } else {
                    0
                };
                &&& i32::MIN <= old(self)@.cursor@[0] - o <= i32::MAX
                &&& i32::MIN <= old(self)@.column_offset - o <= i32::MAX
            }),
        ensures
            final(self).wf(),
            ({
                let o = if old(self)@.offset_stack.len() > 0 {
                    old(self)@.offset_stack.last() as int
                } else {
                    0
                };
                &&& final(self)@ == (UiView {
                    offset_stack: if old(self)@.offset_stack.len() > 0 {
                        old(self)@.offset_stack.drop_last()
                    } else {
                        old(self)@.offset_stack
                    },
                    cursor: final(self)@.cursor,
                    column_offset: (old(self)@.column_offset - o) as i32,
                    ..old(self)@
                })
                &&& final(self)@.cursor@ == seq![(old(self)@.cursor@[0] - o) as i32, old(self)@.cursor@[1]]
            }),
    {
        let offset = match self.offset_stack.pop() {
            Some(o) => o,
            None => 0,
        };
        let x = self.cursor.x() - offset;
        let y = self.cursor.y();
        self.cursor = Point::new([x, y]);
        self.column_offset = self.column_offset - offset;
        assert(self.cursor@ =~= seq![x, y]);
    }

    /// Push the current UI rendering position to the stack.
    pub fn push_cursor(&mut self)
        requires
            old(self).wf(),
        ensures
            final(self).wf(),
            final(self)@ == (UiView {
                cursor_stack: old(self)@.cursor_stack.push(
                    (old(self)@.pcursor, old(self)@.cursor, old(self)@.pline_height, old(self)@.line_height),
                ),
                ..old(self)@
            }),
    {
        self.cursor_stack.push((self.pcursor, self.cursor, self.pline_height, self.line_height));
    }

    /// Pop the last UI rendering position from the stack, or reset to the origin when nothing
    /// was pushed.
    pub fn pop_cursor(&mut self)
        requires
            old(self).wf(),
        ensures
            final(self).wf(),
            old(self)@.cursor_stack.len() > 0 ==> final(self)@ == (UiView {
                cursor_stack: old(self)@.cursor_stack.drop_last(),
                pcursor: old(self)@.cursor_stack.last().0,
                cursor: old(self)@.cursor_stack.last().1,
                pline_height: old(self)@.cursor_stack.last().2,
                line_height: old(self)@.cursor_stack.last().3,
                ..old(self)@
            }),
            old(self)@.cursor_stack.len() == 0 ==> final(self)@ == (UiView {
                pcursor: final(self)@.pcursor,
                cursor: final(self)@.cursor,
                pline_height: 0,
                line_height: 0,
                ..old(self)@
            }),
            old(self)@.cursor_stack.len() == 0 ==> final(self)@.pcursor@ == seq![0i32, 0i32]
                && final(self)@.cursor@ == seq![0i32, 0i32],
    {
        let (pcursor, cursor, pline_height, line_height) = match self.cursor_stack.pop() {
            Some(frame) => frame,
            None => (Point::new([0, 0]), Point::new([0, 0]), 0, 0),
        };
        self.pcursor = pcursor;
        self.cursor = cursor;
        self.pline_height = pline_height;
        self.line_height = line_height;
        proof {
            if old(self)@.cursor_stack.len() == 0 {
                assert(self.pcursor@ =~= seq![0i32, 0i32]);
                assert(self.cursor@ =~= seq![0i32, 0i32]);
            }
        }
    }

    /// Returns the current mouse position coordinates as `(x, y)`, relative to the offset.
    pub fn mouse_pos(&self) -> (p: PointI2)
        requires
            self@.mouse_fits(),
        ensures
            p@[0] == self@.mouse_pos().0,
            p@[1] == self@.mouse_pos().1,
            p@.len() == 2,
    {
        let pos = self.mouse.pos;
        proof {
            pos.lemma_len();
        }
        match self.mouse_offset {
            Some(offset) => {
                proof {
                    offset.lemma_len();
                }
                Point::new([pos.x() - offset.x(), pos.y() - offset.y()])
            },
            None => pos,
        }
    }

    /// Returns the previous mouse position coordinates last frame as `(x, y)`, relative to the
    /// offset.
    pub fn pmouse_pos(&self) -> (p: PointI2)
        requires
            self@.mouse_fits(),
        ensures
            p@[0] == offset_pos(self@.pmouse.pos, self@.mouse_offset).0,
            p@[1] == offset_pos(self@.pmouse.pos, self@.mouse_offset).1,
            p@.len() == 2,
    {
        let pos = self.pmouse.pos;
        proof {
            pos.lemma_len();
        }
        match self.mouse_offset {
            Some(offset) => {
                proof {
                    offset.lemma_len();
                }
                Point::new([pos.x() - offset.x(), pos.y() - offset.y()])
            },
            None => pos,
        }
    }

    /// Set a mouse offset for rendering within textures or viewports.
    pub fn offset_mouse(&mut self, offset: PointI2)
        requires
            old(self).wf(),
        ensures
            final(self).wf(),
            final(self)@ == (UiView { mouse_offset: Some(offset), ..old(self)@ }),
    {
        self.mouse_offset = Some(offset);
    }

    /// Clear mouse offset for rendering within textures or viewports.
    pub fn clear_mouse_offset(&mut self)
        requires
            old(self).wf(),
        ensures
            final(self).wf(),
            final(self)@ == (UiView { mouse_offset: None, ..old(self)@ }),
    {
        self.mouse_offset = None;
    }

    /// Whether an element is `active`: the UI is enabled and it is the active element.
    pub fn is_active(&self, id: ElementId) -> (b: bool)
        ensures
            b == self@.is_active(id),
    {
        !self.disabled && match self.active {
            Some(el) => el == id,
            None => false,
        }
    }

    /// Whether any element is currently `active`.
    pub fn has_active(&self) -> (b: bool)
        ensures
            b == self@.active is Some,
    {
        self.active.is_some()
    }

    /// Set a given element as `active`.
    pub fn set_active(&mut self, id: ElementId)
        requires
            old(self).wf(),
        ensures
            final(self).wf(),
            final(self)@ == (UiView { active: Some(id), ..old(self)@ }),
    {
        self.active = Some(id);
    }

    /// Clears the current `active` element.
    pub fn clear_active(&mut self)
        requires
            old(self).wf(),
        ensures
            final(self).wf(),
            final(self)@ == (UiView { active: None, ..old(self)@ }),
    {
        self.active = None;
    }

    /// Whether an element is `hovered`.
    pub fn is_hovered(&self, id: ElementId) -> (b: bool)
        ensures
            b == self@.is_hovered(id),
    {
        match self.hovered {
            Some(el) => el == id,
            None => false,
        }
    }

    /// Whether any element currently is `hovered`.
    pub fn has_hover(&self) -> (b: bool)
        ensures
            b == self@.hovered is Some,
    {
        self.hovered.is_some()
    }

    /// Set a given element as `hovered`, and as `active` when the left mouse button is down and
    /// no other element is active.
    pub fn hover(&mut self, id: ElementId)
        requires
            old(self).wf(),
        ensures
            final(self).wf(),
            final(self)@ == (UiView {
                hovered: Some(id),
                active: if old(self)@.active is None && old(self)@.left_down() {
                    Some(id)
                } else {
                    old(self)@.active
                },
                ..old(self)@
            }),
    {
        self.hovered = Some(id);
        if !self.has_active() && self.mouse.is_down(Mouse::Left) {
            self.set_active(id);
        }
    }

    /// Clears the current `hovered` element.
    pub fn clear_hovered(&mut self)
        requires
            old(self).wf(),
        ensures
            final(self).wf(),
            final(self)@ == (UiView { hovered: None, ..old(self)@ }),
    {
        self.hovered = None;
    }

    /// Try to capture `hover` if no other element is currently `hovered`, the UI is enabled and
    /// the mouse is inside `shape`; returns whether `id` is hovered afterwards.
    pub fn try_hover(&mut self, id: ElementId, shape: &Rect<i32>) -> (b: bool)
        requires
            old(self).wf(),
            old(self)@.mouse_fits(),
        ensures
            final(self).wf(),
            ({
                let s = old(self)@;
                let captures = s.hovered is None && !s.disabled && rect_contains(
                    shape@,
                    s.mouse_pos().0,
                    s.mouse_pos().1,
                );
                &&& final(self)@ == if captures {
                    UiView {
                        hovered: Some(id),
                        active: if s.active is None && s.left_down() {
                            Some(id)
                        } else {
                            s.active
                        },
                        ..s
                    }
                } else {
                    s
                }
                &&& b == final(self)@.is_hovered(id)
            }),
    {
        if !self.has_hover() && !self.disabled && shape.contains_point(self.mouse_pos()) {
            self.hover(id);
        }
        self.is_hovered(id)
    }

    /// Whether an element is `focused`: the UI is enabled and it is the focused element.
    pub fn is_focused(&self, id: ElementId) -> (b: bool)
        ensures
            b == self@.is_focused(id),
    {
        !self.disabled && match self.focused {
            Some(el) => el == id,
            None => false,
        }
    }

    /// Whether any element currently has `focus`.
    pub fn has_focused(&self) -> (b: bool)
        ensures
            b == self@.focused is Some,
    {
        self.focused.is_some()
    }

    /// Set a given element as `focused`.
    pub fn focus(&mut self, id: ElementId)
        requires
            old(self).wf(),
        ensures
            final(self).wf(),
            final(self)@ == (UiView { focused: Some(id), ..old(self)@ }),
    {
        self.focused = Some(id);
    }

    /// Try to capture `focus` if no other element is currently `focused`; returns whether `id`
    /// is focused afterwards.
    pub fn try_focus(&mut self, id: ElementId) -> (b: bool)
        requires
            old(self).wf(),
        ensures
            final(self).wf(),
            final(self)@ == (UiView {
                focused: if old(self)@.focused is None {
                    Some(id)
                } else {
                    old(self)@.focused
                },
                ..old(self)@
            }),
            b == final(self)@.is_focused(id),
    {
        if !self.has_focused() {
            self.focus(id);
        }
        self.is_focused(id)
    }

    /// Clears the current `focused` element.
    pub fn blur(&mut self)
        requires
            old(self).wf(),
        ensures
            final(self).wf(),
            final(self)@ == (UiView { focused: None, ..old(self)@ }),
    {
        self.focused = None;
    }

    /// Whether an element is being edited: the UI is enabled and it is the edited element.
    pub fn is_editing(&self, id: ElementId) -> (b: bool)
        ensures
            b == self@.is_editing(id),
    {
        !self.disabled && match self.editing {
            Some(el) => el == id,
            None => false,
        }
    }

    /// Start edit mode for a given element.
    pub fn begin_edit(&mut self, id: ElementId)
        requires
            old(self).wf(),
        ensures
            final(self).wf(),
            final(self)@ == (UiView { editing: Some(id), ..old(self)@ }),
    {
        self.editing = Some(id);
    }

    /// End edit mode.
    pub fn end_edit(&mut self)
        requires
            old(self).wf(),
        ensures
            final(self).wf(),
            final(self)@ == (UiView { editing: None, ..old(self)@ }),
    {
        self.editing = None;
    }

    /// Return what, if any, [Key] was entered this frame.
    pub fn key_entered(&self) -> (k: Option<Key>)
        ensures
            k == self@.keys.entered,
    {
        self.keys.entered
    }

    /// Clear all per-frame events: the key entered, the text typed, the clicks and the relative
    /// mouse motion.
    pub fn clear_entered(&mut self)
        requires
            old(self).wf(),
        ensures
            final(self).wf(),
            final(self)@ == (UiView {
                keys: KeyStateView { entered: None, typed: None, ..old(self)@.keys },
                mouse: MouseStateView {
                    clicked: Set::<Mouse>::empty(),
                    xrel: 0,
                    yrel: 0,
                    ..old(self)@.mouse
                },
                ..old(self)@
            }),
    {
        self.keys.typed = None;
        self.keys.entered = None;
        self.mouse.clear_frame();
    }

    /// Handles global element inputs for `focused` checks: Tab moves focus on, Shift+Tab back to
    /// the previous focusable element, and a click focuses the element clicked.
    pub fn handle_events(&mut self, id: ElementId)
        requires
            old(self).wf(),
        ensures
            final(self).wf(),
            ({
                let s = old(self)@;
                let tabbed = s.is_focused(id) && s.keys.entered == Some(Key::Tab);
                let s1 = if tabbed {
                    UiView {
                        focused: if s.keys.keymod & 0x0003u16 != 0 {
                            s.last_focusable
                        } else {
                            None
                        },
                        keys: KeyStateView { entered: None, typed: None, ..s.keys },
                        mouse: MouseStateView {
                            clicked: Set::<Mouse>::empty(),
                            xrel: 0,
                            yrel: 0,
                            ..s.mouse
                        },
                        ..s
                    }
                } else {
                    s
                };
                let s2 = if s1.clicked(id) {
                    UiView { focused: Some(id), ..s1 }
                } else {
                    s1
                };
                final(self)@ == (UiView { last_focusable: Some(id), ..s2 })
            }),
    {
        if self.is_focused(id) && self.keys.was_entered(Key::Tab) {
            self.blur();
            if self.keys.mod_down(KeyMod::shift()) {
                self.focused = self.last_focusable;
            }
            self.clear_entered();
        }
        let clicked = !self.mouse.is_down(Mouse::Left) && self.is_hovered(id) && self.is_active(id);
        if clicked {
            self.focus(id);
        }
        self.last_focusable = Some(id);
    }

    /// Whether this element was `clicked` this frame: Return pressed while it is focused, which
    /// clears the frame's events, or a mouse click released over it while hovered and active.
    pub fn was_clicked(&mut self, id: ElementId) -> (b: bool)
        requires
            old(self).wf(),
        ensures
            final(self).wf(),
            ({
                let s = old(self)@;
                if s.is_focused(id) && s.keys.entered == Some(Key::Return) {
                    &&& b
                    &&& final(self)@ == (UiView {
                        keys: KeyStateView { entered: None, typed: None, ..s.keys },
                        mouse: MouseStateView {
                            clicked: Set::<Mouse>::empty(),
                            xrel: 0,
                            yrel: 0,
                            ..s.mouse
                        },
                        ..s
                    })
                } else {
                    &&& b == s.clicked(id)
                    &&& final(self)@ == s
                }
            }),
    {
        if self.is_focused(id) && self.keys.was_entered(Key::Return) {
            self.clear_entered();
            true
        } else {
            !self.mouse.is_down(Mouse::Left) && self.is_hovered(id) && self.is_active(id)
        }
    }

    /// Returns the width of the last rendered UI element, or 0 if there is none.
    pub fn last_width(&self) -> (w: i32)
        ensures
            w == match self@.last_size {
                Some(r) => r@.2,
                None => 0,
            },
    {
        match self.last_size {
            Some(r) => r.width(),
            None => 0,
        }
    }
}

/// The per-element setting a UI state update changes.
pub enum ElementField {
    Scroll,
    TextEdit,
    CurrentTab,
    Expanded,
}

/// Whether `new` keeps every setting of `old`, or of a fresh state when there is none, except
/// `field`.
pub open spec fn kept_except(old: Option<ElementState>, new: ElementState, field: ElementField) -> bool {
    match old {
        Some(o) => {
            &&& (field !is Scroll ==> new.scroll == o.scroll)
            &&& (field !is TextEdit ==> new.text_edit@ == o.text_edit@)
            &&& (field !is CurrentTab ==> new.current_tab == o.current_tab)
            &&& (field !is Expanded ==> new.expanded == o.expanded)
        },
        None => {
            &&& (field !is Scroll ==> new.scroll@ == seq![0i32, 0i32])
            &&& (field !is TextEdit ==> new.text_edit@ == Seq::<char>::empty())
            &&& (field !is CurrentTab ==> new.current_tab == 0)
            &&& (field !is Expanded ==> !new.expanded)
        },
    }
}

/// Whether the element entries went from `before` to `after` by putting a state for `id` whose
/// `field` was changed and whose other settings were kept.
pub open spec fn element_set(
    before: Seq<(u64, ElementState)>,
    after: Seq<(u64, ElementState)>,
    id: ElementId,
    field: ElementField,
) -> bool {
    &&& after.len() > 0
    &&& after == after_put(before, id.0, after[0].1, ELEMENT_CACHE_SIZE as nat)
    &&& kept_except(lookup(before, id.0), after[0].1, field)
}

impl UiState {
    /// Puts `st` under `id`, keeping the cache well formed.
    fn put_element(&mut self, id: ElementId, st: ElementState)
        requires
            old(self).wf(),
        ensures
            final(self).wf(),
            final(self)@ == (UiView {
                elements: after_put(old(self)@.elements, id.0, st, ELEMENT_CACHE_SIZE as nat),
                ..old(self)@
            }),
            final(self)@.elements[0].1 == st,
            final(self)@.elements.len() > 0,
    {
        proof {
            lemma_after_put(lru_entries(self.elements), id.0, st, ELEMENT_CACHE_SIZE as nat);
        }
        let _ = lru_put(&mut self.elements, id.0, st);
    }

    /// The state kept for `id`, without marking it used.
    pub fn element_state(&self, id: ElementId) -> (r: Option<ElementState>)
        ensures
            r == self@.element(id),
    {
        lru_peek(&self.elements, id.0)
    }

    /// Returns the current `scroll` state for this element, or no scroll.
    pub fn scroll(&self, id: ElementId) -> (v: VectorI2)
        ensures
            match self@.element(id) {
                Some(st) => v == st.scroll,
                None => v@ == seq![0i32, 0i32],
            },
    {
        match lru_peek(&self.elements, id.0) {
            Some(st) => st.scroll,
            None => {
                let v = Vector::new([0, 0]);
                assert(v@ =~= seq![0i32, 0i32]);
                v
            },
        }
    }

    /// Set the current `scroll` state for this element.
    pub fn set_scroll(&mut self, id: ElementId, scroll: VectorI2)
        requires
            old(self).wf(),
        ensures
            final(self).wf(),
            final(self)@ == (UiView { elements: final(self)@.elements, ..old(self)@ }),
            element_set(old(self)@.elements, final(self)@.elements, id, ElementField::Scroll),
            final(self)@.elements[0].1.scroll == scroll,
    {
        let st = match lru_peek(&self.elements, id.0) {
            Some(st) => ElementState { scroll, ..st },
            None => ElementState { scroll, ..ElementState::fresh() },
        };
        self.put_element(id, st);
    }

    /// Takes the current `text_edit` state for this element, leaving it empty and marking the
    /// element used; returns `initial_text` when there is none.
    pub fn text_edit(&mut self, id: ElementId, initial_text: String) -> (t: String)
        requires
            old(self).wf(),
        ensures
            final(self).wf(),
            final(self)@ == (UiView { elements: final(self)@.elements, ..old(self)@ }),
            match old(self)@.element(id) {
                Some(st) => {
                    &&& t@ == st.text_edit@
                    &&& element_set(old(self)@.elements, final(self)@.elements, id, ElementField::TextEdit)
                    &&& final(self)@.elements[0].1.text_edit@ == Seq::<char>::empty()
                },
                None => t@ == initial_text@ && final(self)@.elements == old(self)@.elements,
            },
    {
        match lru_peek(&self.elements, id.0) {
            Some(st) => {
                let text = st.text_edit;
                let st = ElementState { text_edit: String::new(), ..st };
                self.put_element(id, st);
                text
            },
            None => initial_text,
        }
    }

    /// Removes the element's state and returns its `text_edit`, or `None` when it has none.
    pub fn take_text_edit(&mut self, id: ElementId) -> (t: Option<String>)
        requires
            old(self).wf(),
        ensures
            final(self).wf(),
            final(self)@ == (UiView { elements: after_pop(old(self)@.elements, id.0), ..old(self)@ }),
            match old(self)@.element(id) {
                Some(st) => t matches Some(s) && s@ == st.text_edit@,
                None => t is None,
            },
    {
        proof {
            lemma_after_pop(lru_entries(self.elements), id.0);
        }
        match lru_pop(&mut self.elements, id.0) {
            Some(st) => Some(st.text_edit),
            None => None,
        }
    }

    /// Updates the current `text_edit` state for this element.
    pub fn set_text_edit(&mut self, id: ElementId, text_edit: String)
        requires
            old(self).wf(),
        ensures
            final(self).wf(),
            final(self)@ == (UiView { elements: final(self)@.elements, ..old(self)@ }),
            element_set(old(self)@.elements, final(self)@.elements, id, ElementField::TextEdit),
            final(self)@.elements[0].1.text_edit@ == text_edit@,
    {
        let st = match lru_peek(&self.elements, id.0) {
            Some(st) => ElementState { text_edit, ..st },
            None => ElementState { text_edit, ..ElementState::fresh() },
        };
        self.put_element(id, st);
    }

    /// Returns the currently selected tab for this element, or the first, marking the element
    /// used.
    pub fn current_tab(&mut self, id: ElementId) -> (t: usize)
        requires
            old(self).wf(),
        ensures
            final(self).wf(),
            final(self)@ == (UiView {
                elements: promote(old(self)@.elements, id.0),
                ..old(self)@
            }),
            t == match old(self)@.element(id) {
                Some(st) => st.current_tab,
                None => 0,
            },
    {
        proof {
            self.lemma_promote_wf(id.0);
        }
        match lru_get(&mut self.elements, id.0) {
            Some(st) => st.current_tab,
            None => 0,
        }
    }

    /// Updates the currently selected tab for this element.
    pub fn set_current_tab(&mut self, id: ElementId, tab: usize)
        requires
            old(self).wf(),
        ensures
            final(self).wf(),
            final(self)@ == (UiView { elements: final(self)@.elements, ..old(self)@ }),
            element_set(old(self)@.elements, final(self)@.elements, id, ElementField::CurrentTab),
            final(self)@.elements[0].1.current_tab == tab,
    {
        let st = match lru_peek(&self.elements, id.0) {
            Some(st) => ElementState { current_tab: tab, ..st },
            None => ElementState { current_tab: tab, ..ElementState::fresh() },
        };
        self.put_element(id, st);
    }

    /// Returns whether this element is expanded, marking it used.
    pub fn expanded(&mut self, id: ElementId) -> (e: bool)
        requires
            old(self).wf(),
        ensures
            final(self).wf(),
            final(self)@ == (UiView {
                elements: promote(old(self)@.elements, id.0),
                ..old(self)@
            }),
            e == match old(self)@.element(id) {
                Some(st) => st.expanded,
                None => false,
            },
    {
        proof {
            self.lemma_promote_wf(id.0);
        }
        match lru_get(&mut self.elements, id.0) {
            Some(st) => st.expanded,
            None => false,
        }
    }

    /// Set whether this element is expanded.
    pub fn set_expanded(&mut self, id: ElementId, expanded: bool)
        requires
            old(self).wf(),
        ensures
            final(self).wf(),
            final(self)@ == (UiView { elements: final(self)@.elements, ..old(self)@ }),
            element_set(old(self)@.elements, final(self)@.elements, id, ElementField::Expanded),
            final(self)@.elements[0].1.expanded == expanded,
    {
        let st = match lru_peek(&self.elements, id.0) {
            Some(st) => ElementState { expanded, ..st },
            None => ElementState { expanded, ..ElementState::fresh() },
        };
        self.put_element(id, st);
    }

    /// Marking an element used keeps the cache well formed.
    proof fn lemma_promote_wf(&self, k: u64)
        requires
            self.wf(),
        ensures
            keys_distinct(promote(lru_entries(self.elements), k)),
            promote(lru_entries(self.elements), k).len() == lru_entries(self.elements).len(),
    {
        let e = lru_entries(self.elements);
        if has_key(e, k) {
            let i = key_index(e, k);
            let r = promote(e, k);
            assert forall|a: int, b: int|
                0 <= a < r.len() && 0 <= b < r.len() && a != b implies #[trigger] r[a].0
                != #[trigger] r[b].0 by {
                let ia = if a == 0 { i } else if a - 1 < i { a - 1 } else { a };
                let ib = if b == 0 { i } else if b - 1 < i { b - 1 } else { b };
                assert(r[a].0 == e[ia].0);
                assert(r[b].0 == e[ib].0);
            }
        }
    }
}

impl UiState {
    /// Handle state changes this frame prior to updating the application: nothing is hovered,
    /// and the cursor starts at the theme's frame padding with no column offset.
    pub fn pre_update(&mut self, theme: &Theme)
        requires
            old(self).wf(),
        ensures
            final(self).wf(),
            final(self)@ == (UiView {
                hovered: None,
                pcursor: final(self)@.pcursor,
                cursor: theme.spacing.frame_pad,
                column_offset: 0,
                ..old(self)@
            }),
            final(self)@.pcursor@ == seq![0i32, 0i32],
    {
        self.clear_hovered();
        self.pcursor = Point::new([0, 0]);
        self.cursor = theme.spacing.frame_pad;
        self.column_offset = 0;
        assert(self.pcursor@ =~= seq![0i32, 0i32]);
    }

    /// Handle state changes this frame after updating the application: every texture is hidden
    /// until drawn again, the previous mouse position becomes the current one, the active
    /// element is cleared when the left button is up (or set to the placeholder `0` while it is
    /// held with nothing active), and the frame's events are cleared.
    pub fn post_update(&mut self)
        requires
            old(self).wf(),
        ensures
            final(self).wf(),
            ({
                let s = old(self)@;
                &&& final(self)@.textures.len() == s.textures.len()
                &&& forall|i: int|
                    0 <= i < s.textures.len() ==> #[trigger] final(self)@.textures[i] == (Texture {
                        visible: false,
                        ..s.textures[i]
                    })
                &&& final(self)@ == (UiView {
                    textures: final(self)@.textures,
                    pmouse: MouseStateView { pos: s.mouse.pos, ..s.pmouse },
                    active: if !s.left_down() {
                        None
                    } else if s.active is None {
                        Some(ElementId(0))
                    } else {
                        s.active
                    },
                    keys: KeyStateView { entered: None, typed: None, ..s.keys },
                    mouse: MouseStateView {
                        clicked: Set::<Mouse>::empty(),
                        xrel: 0,
                        yrel: 0,
                        ..s.mouse
                    },
                    ..s
                })
            }),
    {
        let mut i: usize = 0;
        let ghost start = self.textures@;
        while i < self.textures.len()
            invariant
                self.wf(),
                self@ == (UiView { textures: self@.textures, ..old(self)@ }),
                start == old(self)@.textures,
                i <= self.textures@.len(),
                self.textures@.len() == start.len(),
                forall|j: int|
                    0 <= j < i ==> #[trigger] self.textures@[j] == (Texture { visible: false, ..start[j] }),
                forall|j: int| i <= j < start.len() ==> #[trigger] self.textures@[j] == start[j],
            decreases self.textures@.len() - i,
        {
            let t = self.textures[i];
            self.textures.set(i, Texture { visible: false, ..t });
            i += 1;
        }
        let pos = self.mouse.pos;
        self.pmouse.set_pos(pos);
        if !self.mouse.is_down(Mouse::Left) {
            self.clear_active();
        } else if !self.has_active() {
            self.set_active(ElementId(0));
        }
        self.clear_entered();
    }
}

/// Whether texture `t` was drawn for element `id` in font `font_id` at `font_size`.
pub open spec fn texture_matches(t: Texture, id: ElementId, font_id: FontId, font_size: u32) -> bool {
    t.element_id == id && t.font_id == font_id && t.font_size == font_size
}

impl UiState {
    /// Finds the first texture drawn for element `id` in font `font_id` at `font_size`; when
    /// there is one, it is shown again at `dst` and its identifier returned. `None` means the
    /// renderer has to create a texture, which [`UiState::add_texture`] then records.
    pub fn find_texture(&mut self, id: ElementId, font_id: FontId, font_size: u32, dst: Rect<i32>) -> (r: Option<TextureId>)
        requires
            old(self).wf(),
        ensures
            final(self).wf(),
            final(self)@ == (UiView { textures: final(self)@.textures, ..old(self)@ }),
            ({
                let ts = old(self)@.textures;
                match r {
                    Some(tid) => exists|i: int|
                        0 <= i < ts.len() && #[trigger] texture_matches(ts[i], id, font_id, font_size)
                            && (forall|j: int| 0 <= j < i ==> !texture_matches(#[trigger] ts[j], id, font_id, font_size))
                            && tid == ts[i].id
                            && final(self)@.textures == ts.update(i, Texture { visible: true, dst: Some(dst), ..ts[i] }),
                    None => {
                        &&& forall|i: int| 0 <= i < ts.len() ==> !texture_matches(#[trigger] ts[i], id, font_id, font_size)
                        &&& final(self)@.textures == ts
                    },
                }
            }),
    {
        let mut i: usize = 0;
        while i < self.textures.len()
            invariant
                self.wf(),
                self@ == old(self)@,
                i <= self.textures@.len(),
                forall|j: int| 0 <= j < i ==> !texture_matches(#[trigger] self.textures@[j], id, font_id, font_size),
            decreases self.textures@.len() - i,
        {
            let t = self.textures[i];
            if t.element_id == id && t.font_id == font_id && t.font_size == font_size {
                self.textures.set(i, Texture { visible: true, dst: Some(dst), ..t });
                assert(texture_matches(old(self)@.textures[i as int], id, font_id, font_size));
                return Some(t.id);
            }
            i += 1;
        }
        None
    }

    /// Records a texture the renderer created; when more than twice the element cache size are
    /// recorded, only the first cache size of them are kept.
    pub fn add_texture(&mut self, texture: Texture)
        requires
            old(self).wf(),
        ensures
            final(self).wf(),
            final(self)@ == (UiView { textures: final(self)@.textures, ..old(self)@ }),
            ({
                let pushed = old(self)@.textures.push(texture);
                final(self)@.textures == if pushed.len() > 2 * ELEMENT_CACHE_SIZE {
                    pushed.subrange(0, ELEMENT_CACHE_SIZE as int)
                } else {
                    pushed
                }
            }),
    {
        self.textures.push(texture);
        if self.textures.len() > 2 * ELEMENT_CACHE_SIZE {
            self.textures.truncate(ELEMENT_CACHE_SIZE);
        }
    }
}

/// What a state update writes is what a later read of that element gives back: the element
/// becomes the most recently used, holds the new state, and every other element keeps its own.
pub proof fn lemma_element_set_then_read(
    before: Seq<(u64, ElementState)>,
    after: Seq<(u64, ElementState)>,
    id: ElementId,
    field: ElementField,
)
    requires
        keys_distinct(before),
        before.len() <= ELEMENT_CACHE_SIZE,
        element_set(before, after, id, field),
    ensures
        lookup(after, id.0) == Some(after[0].1),
        keys_distinct(after),
        after.len() <= ELEMENT_CACHE_SIZE,
        forall|j: u64| j != id.0 && has_key(after, j) ==> lookup(after, j) == lookup(before, j),
{
    lemma_after_put(before, id.0, after[0].1, ELEMENT_CACHE_SIZE as nat);
}

/// The state after `id` is hovered: it becomes hovered, and active when the left button is
/// down and nothing else is active.
pub open spec fn hover_step(s: UiView, id: ElementId) -> UiView {
    UiView {
        hovered: Some(id),
        active: if s.active is None && s.left_down() {
            Some(id)
        } else {
            s.active
        },
        ..s
    }
}

/// The state after `id` tries to take focus: it is focused when nothing else was.
pub open spec fn focus_step(s: UiView, id: ElementId) -> UiView {
    UiView {
        focused: if s.focused is None {
            Some(id)
        } else {
            s.focused
        },
        ..s
    }
}

/// The state with the frame's events cleared.
pub open spec fn cleared(s: UiView) -> UiView {
    UiView {
        keys: KeyStateView { entered: None, typed: None, ..s.keys },
        mouse: MouseStateView { clicked: Set::<Mouse>::empty(), xrel: 0, yrel: 0, ..s.mouse },
        ..s
    }
}

/// The state after element `id` handles Tab focus cycling and click focusing.
pub open spec fn events_step(s: UiView, id: ElementId) -> UiView {
    let tabbed = s.is_focused(id) && s.keys.entered == Some(Key::Tab);
    let s1 = if tabbed {
        UiView {
            focused: if s.keys.keymod & 0x0003u16 != 0 {
                s.last_focusable
            } else {
                None
            },
            ..cleared(s)
        }
    } else {
        s
    };
    let s2 = if s1.clicked(id) {
        UiView { focused: Some(id), ..s1 }
    } else {
        s1
    };
    UiView { last_focusable: Some(id), ..s2 }
}

/// The state after asking whether `id` was clicked, and the answer.
pub open spec fn click_step(s: UiView, id: ElementId) -> (UiView, bool) {
    if s.is_focused(id) && s.keys.entered == Some(Key::Return) {
        (cleared(s), true)
    } else {
        (s, s.clicked(id))
    }
}

/// The bytes of an `i32`, least significant first.
pub open spec fn i32_le_bytes(v: i32) -> Seq<u8> {
    u64_le_bytes(v as u32 as u64).subrange(0, 4)
}

/// The identifier of a rectangle: the hash of its four coordinates after their count.
pub open spec fn rect_hash(r: (i32, i32, i32, i32)) -> u64 {
    DefaultHasher::spec_finish(
        seq![
            u64_le_bytes(4),
            i32_le_bytes(r.0),
            i32_le_bytes(r.1),
            i32_le_bytes(r.2),
            i32_le_bytes(r.3),
        ],
    )
}

/// The bytes of an `i32`, least significant first.
fn i32_bytes(v: i32) -> (b: [u8; 4])
    ensures
        b@ == i32_le_bytes(v),
{
    let u = v as u32 as u64;
    let all = le_bytes(u);
    let b = [all[0], all[1], all[2], all[3]];
    assert(b@ =~= i32_le_bytes(v));
    b
}

/// Hashes a rectangle into an element identifier.
pub fn hash_rect(r: &Rect<i32>) -> (id: ElementId)
    ensures
        id.0 == rect_hash(r@),
{
    let mut hasher = DefaultHasher::new();
    let len = le_bytes(4);
    hasher.write(len.as_slice());
    let b0 = i32_bytes(r.x());
    hasher.write(b0.as_slice());
    let b1 = i32_bytes(r.y());
    hasher.write(b1.as_slice());
    let b2 = i32_bytes(r.width());
    hasher.write(b2.as_slice());
    let b3 = i32_bytes(r.height());
    hasher.write(b3.as_slice());
    assert(hasher@ =~= seq![
        u64_le_bytes(4),
        i32_le_bytes(r@.0),
        i32_le_bytes(r@.1),
        i32_le_bytes(r@.2),
        i32_le_bytes(r@.3),
    ]);
    ElementId(hasher.finish())
}

impl UiState {
    /// Pushes a seed for element identifiers.
    pub fn push_id(&mut self, id: u64)
        requires
            old(self).wf(),
        ensures
            final(self).wf(),
            final(self)@ == (UiView { id_stack: old(self)@.id_stack.push(id), ..old(self)@ }),
    {
        self.id_stack.push(id);
    }

    /// Pops the last seed for element identifiers; an empty stack stays empty.
    pub fn pop_id(&mut self)
        requires
            old(self).wf(),
        ensures
            final(self).wf(),
            final(self)@ == (UiView {
                id_stack: if old(self)@.id_stack.len() > 0 {
                    old(self)@.id_stack.drop_last()
                } else {
                    old(self)@.id_stack
                },
                ..old(self)@
            }),
    {
        let _ = self.id_stack.pop();
    }

    /// Sets whether UI elements drawn from now on are disabled.
    pub fn set_disabled(&mut self, disabled: bool)
        requires
            old(self).wf(),
        ensures
            final(self).wf(),
            final(self)@ == (UiView { disabled, ..old(self)@ }),
    {
        self.disabled = disabled;
    }

    /// Whether UI elements are disabled.
    pub fn disabled(&self) -> (b: bool)
        ensures
            b == self@.disabled,
    {
        self.disabled
    }

    /// The bounds of the last element drawn.
    pub fn last_size(&self) -> (r: Option<Rect<i32>>)
        ensures
            r == self@.last_size,
    {
        self.last_size
    }

    /// Whether a mouse button is held down.
    pub fn mouse_down(&self, btn: Mouse) -> (b: bool)
        ensures
            b == self@.mouse.pressed.contains(btn),
    {
        self.mouse.is_down(btn)
    }

    /// Whether a mouse button was clicked this frame.
    pub fn mouse_clicked(&self, btn: Mouse) -> (b: bool)
        ensures
            b == self@.mouse.clicked.contains(btn),
    {
        self.mouse.was_clicked(btn)
    }

    /// The width requested for the next element, if any, which is then cleared.
    pub fn take_next_width(&mut self) -> (w: Option<i32>)
        requires
            old(self).wf(),
        ensures
            final(self).wf(),
            w == old(self)@.next_width,
            final(self)@ == (UiView { next_width: None, ..old(self)@ }),
    {
        self.next_width.take()
    }

    /// The width requested for the next element, if any.
    pub fn next_width(&self) -> (w: Option<i32>)
        ensures
            w == self@.next_width,
    {
        self.next_width
    }

    /// Requests a width for the next element.
    pub fn set_next_width(&mut self, width: Option<i32>)
        requires
            old(self).wf(),
        ensures
            final(self).wf(),
            final(self)@ == (UiView { next_width: width, ..old(self)@ }),
    {
        self.next_width = width;
    }

    /// Sets the line heights and cursors the layout keeps.
    pub fn set_layout(
        &mut self,
        pcursor: PointI2,
        cursor: PointI2,
        pline_height: i32,
        line_height: i32,
        last_size: Option<Rect<i32>>,
    )
        requires
            old(self).wf(),
        ensures
            final(self).wf(),
            final(self)@ == (UiView { pcursor, cursor, pline_height, line_height, last_size, ..old(self)@ }),
    {
        self.pcursor = pcursor;
        self.cursor = cursor;
        self.pline_height = pline_height;
        self.line_height = line_height;
        self.last_size = last_size;
    }

    /// The previous and current line heights.
    pub fn line_heights(&self) -> (h: (i32, i32))
        ensures
            h == (self@.pline_height, self@.line_height),
    {
        (self.pline_height, self.line_height)
    }
}

/// The state after `id` tries to take the hover of the area `shape`.
pub open spec fn try_hover_step(s: UiView, id: ElementId, shape: (i32, i32, i32, i32)) -> UiView {
    if s.hovered is None && !s.disabled && rect_contains(shape, s.mouse_pos().0, s.mouse_pos().1) {
        hover_step(s, id)
    } else {
        s
    }
}

/// The identifier derived from another identifier under an optional seed.
pub open spec fn id_of_id(v: u64, seed: Option<u64>) -> u64 {
    match seed {
        Some(s) => DefaultHasher::spec_finish(seq![u64_le_bytes(v), u64_le_bytes(s)]),
        None => DefaultHasher::spec_finish(seq![u64_le_bytes(v)]),
    }
}

/// The seed on top of the ID stack, if any.
pub open spec fn top_seed(s: UiView) -> Option<u64> {
    if s.id_stack.len() > 0 {
        Some(s.id_stack.last())
    } else {
        None
    }
}

impl UiState {
    /// Returns the identifier derived from another element's identifier, seeded by the top of
    /// the ID stack.
    pub fn get_id_of(&self, id: ElementId) -> (r: ElementId)
        ensures
            r.0 == id_of_id(id.0, top_seed(self@)),
    {
        let mut hasher = DefaultHasher::new();
        let bytes = le_bytes(id.0);
        hasher.write(bytes.as_slice());
        if self.id_stack.len() > 0 {
            let seed = le_bytes(self.id_stack[self.id_stack.len() - 1]);
            hasher.write(seed.as_slice());
            assert(hasher@ =~= seq![u64_le_bytes(id.0), u64_le_bytes(self@.id_stack.last())]);
        } else {
            assert(hasher@ =~= seq![u64_le_bytes(id.0)]);
        }
        ElementId(hasher.finish())
    }

    /// The relative mouse motion, or wheel turn, this frame.
    pub fn mouse_rel(&self) -> (r: (i32, i32))
        ensures
            r == (self@.mouse.xrel, self@.mouse.yrel),
    {
        (self.mouse.xrel, self.mouse.yrel)
    }
}

impl UiState {
    /// Takes the text typed this frame, leaving none.
    pub fn take_typed(&mut self) -> (t: Option<String>)
        requires
            old(self).wf(),
        ensures
            final(self).wf(),
            match t {
                Some(s) => old(self)@.keys.typed == Some(s@),
                None => old(self)@.keys.typed is None,
            },
            final(self)@ == (UiView { keys: KeyStateView { typed: None, ..old(self)@.keys }, ..old(self)@ }),
    {
        self.keys.typed.take()
    }

    /// The bits of the modifiers held.
    pub fn keymod_bits(&self) -> (b: u16)
        ensures
            b == self@.keys.keymod,
    {
        self.keys.keymod.bits()
    }
}

impl UiState {
    /// Records the mouse at `pos`, moved by `(xrel, yrel)`.
    pub fn move_mouse(&mut self, pos: PointI2, xrel: i32, yrel: i32)
        requires
            old(self).wf(),
        ensures
            final(self).wf(),
            final(self)@ == (UiView {
                mouse: MouseStateView { pos: pos@, xrel, yrel, ..old(self)@.mouse },
                ..old(self)@
            }),
    {
        self.mouse.set_pos(pos);
        self.mouse.xrel = xrel;
        self.mouse.yrel = yrel;
    }

    /// Records a mouse button as held down.
    pub fn press_mouse(&mut self, btn: Mouse)
        requires
            old(self).wf(),
        ensures
            final(self).wf(),
            final(self)@ == (UiView {
                mouse: MouseStateView { pressed: old(self)@.mouse.pressed.insert(btn), ..old(self)@.mouse },
                ..old(self)@
            }),
    {
        self.mouse.press(btn);
    }

    /// Records a mouse button as released.
    pub fn release_mouse(&mut self, btn: Mouse)
        requires
            old(self).wf(),
        ensures
            final(self).wf(),
            final(self)@ == (UiView {
                mouse: MouseStateView { pressed: old(self)@.mouse.pressed.remove(btn), ..old(self)@.mouse },
                ..old(self)@
            }),
    {
        self.mouse.release(btn);
    }

    /// Records a click of a mouse button at `time`, in milliseconds.
    pub fn click_mouse(&mut self, btn: Mouse, time: u64)
        requires
            old(self).wf(),
        ensures
            final(self).wf(),
            final(self)@ == (UiView {
                mouse: MouseStateView {
                    clicked: old(self)@.mouse.clicked.insert(btn),
                    last_clicked: old(self)@.mouse.last_clicked.insert(btn, time),
                    ..old(self)@.mouse
                },
                ..old(self)@
            }),
    {
        self.mouse.click(btn, time);
    }

    /// Records a mouse wheel turn.
    pub fn wheel_mouse(&mut self, x: i32, y: i32)
        requires
            old(self).wf(),
        ensures
            final(self).wf(),
            final(self)@ == (UiView { mouse: MouseStateView { xrel: x, yrel: y, ..old(self)@.mouse }, ..old(self)@ }),
    {
        self.mouse.wheel(x, y);
    }

    /// Records a key as entered and held down, with the modifiers held.
    pub fn press_key(&mut self, key: Key, keymod: KeyMod)
        requires
            old(self).wf(),
        ensures
            final(self).wf(),
            final(self)@ == (UiView {
                keys: KeyStateView {
                    entered: Some(key),
                    pressed: old(self)@.keys.pressed.insert(key),
                    keymod: keymod@,
                    ..old(self)@.keys
                },
                ..old(self)@
            }),
    {
        self.keys.press(key, keymod);
    }

    /// Records a key as released, with the modifiers held.
    pub fn release_key(&mut self, key: Key, keymod: KeyMod)
        requires
            old(self).wf(),
        ensures
            final(self).wf(),
            final(self)@ == (UiView {
                keys: KeyStateView {
                    pressed: old(self)@.keys.pressed.remove(key),
                    keymod: keymod@,
                    ..old(self)@.keys
                },
                ..old(self)@
            }),
    {
        self.keys.release(key, keymod);
    }

    /// Records text typed this frame.
    pub fn type_text(&mut self, text: String)
        requires
            old(self).wf(),
        ensures
            final(self).wf(),
            final(self)@ == (UiView { keys: KeyStateView { typed: Some(text@), ..old(self)@.keys }, ..old(self)@ }),
    {
        self.keys.typed(text);
    }

    /// The mouse state.
    pub fn mouse_state(&self) -> (m: &MouseState)
        ensures
            m@ == self@.mouse,
    {
        &self.mouse
    }
}

/// Marking an element used changes no element's state.
pub proof fn lemma_promote_lookup(e: Seq<(u64, ElementState)>, k: u64, j: u64)
    requires
        keys_distinct(e),
    ensures
        lookup(promote(e, k), j) == lookup(e, j),
        has_key(promote(e, k), j) == has_key(e, j),
{
    if has_key(e, k) {
        let i = key_index(e, k);
        let r = promote(e, k);
        assert(r.len() == e.len());
        if has_key(e, j) {
            let x = key_index(e, j);
            let y = if x == i { 0 } else if x < i { x + 1 } else { x };
            assert(r[y] == e[x]);
            assert(has_key(r, j));
            let z = key_index(r, j);
            let w = if z == 0 { i } else if z - 1 < i { z - 1 } else { z };
            assert(r[z] == e[w]);
            assert(w == x);
        } else {
            assert forall|z: int| 0 <= z < r.len() implies r[z].0 != j by {
                let w = if z == 0 { i } else if z - 1 < i { z - 1 } else { z };
                assert(r[z] == e[w]);
            }
        }
    }
}

} // verus!
