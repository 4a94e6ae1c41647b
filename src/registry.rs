use std::collections::HashMap;
use vstd::prelude::*;
use vstd::seq_lib::{group_to_multiset_ensures, lemma_multiset_commutative};
use vstd::string::StringExecFns;

use crate::texture::{image_texels, texels_from_image, Texel, TextureDelta, TextureId};

verus! {

broadcast use vstd::std_specs::hash::group_hash_axioms;

/// The decimal digit `d` (`d < 10`).
pub open spec fn digit_char(d: nat) -> char {
    seq!['0', '1', '2', '3', '4', '5', '6', '7', '8', '9'][d as int]
}

/// The decimal notation of `n`, without leading zeros.
pub open spec fn decimal(n: nat) -> Seq<char>
    decreases n,
{
    if n < 10 {
        seq![digit_char(n)]
    } else {
        decimal(n / 10).push(digit_char(n % 10))
    }
}

/// The name under which the renderer keeps the GUI texture `Managed(id)`.
pub open spec fn texture_name_of(id: u64) -> Seq<char> {
    seq!['e', 'g', 'u', 'i', '-'] + decimal(id as nat)
}

/// The one-digit string for `d`.
fn digit_str(d: u64) -> (r: &'static str)
    requires
        d < 10,
    ensures
        r@ == seq![digit_char(d as nat)],
{
    if d == 0 {
        proof {
            reveal_strlit("0");
        }
        "0"
    } else if d == 1 {
        proof {
            reveal_strlit("1");
        }
        "1"
    } else if d == 2 {
        proof {
            reveal_strlit("2");
        }
        "2"
    } else if d == 3 {
        proof {
            reveal_strlit("3");
        }
        "3"
    } else if d == 4 {
        proof {
            reveal_strlit("4");
        }
        "4"
    } else if d == 5 {
        proof {
            reveal_strlit("5");
        }
        "5"
    } else if d == 6 {
        proof {
            reveal_strlit("6");
        }
        "6"
    } else if d == 7 {
        proof {
            reveal_strlit("7");
        }
        "7"
    } else if d == 8 {
        proof {
            reveal_strlit("8");
        }
        "8"
    } else {
        proof {
            reveal_strlit("9");
        }
        "9"
    }
}

/// `s` followed by the decimal notation of `n`.
fn push_decimal(s: String, n: u64) -> (r: String)
    ensures
        r@ == s@ + decimal(n as nat),
    decreases n,
{
    if n < 10 {
        s.concat(digit_str(n))
    } else {
        let prefix = push_decimal(s, n / 10);
        let r = prefix.concat(digit_str(n % 10));
        assert(r@ =~= s@ + decimal(n as nat));
        r
    }
}

/// The renderer name of the GUI texture `Managed(id)`.
fn texture_name(id: u64) -> (r: String)
    ensures
        r@ == texture_name_of(id),
{
    proof {
        reveal_strlit("egui-");
    }
    push_decimal(String::from_str("egui-"), id)
}

/// Why a texture delta is not applied.
#[derive(Clone, Copy, Debug, PartialEq, Eq, Structural)]
pub enum TextureSkip {
    /// Application-supplied textures are not managed by this bridge.
    UserTexture,
    /// A patch for a texture that was never created.
    UnknownTexture,
}

/// What the renderer has to do for one texture delta.
pub enum TextureCommand {
    /// Create a square canvas of `size` texels named `name`, scale its
    /// texture coordinates vertically by `height / width`, write `texels`,
    /// upload it and register it; the handle that registration returns is
    /// then recorded under `id`.
    Create { id: u64, name: String, size: u32, width: u32, height: u32, texels: Vec<Texel> },
    /// Write `texels` into the existing texture `handle`, named `name`, and
    /// queue one upload for the frame.
    Patch { handle: u16, name: String, texels: Vec<Texel> },
    /// Leave the renderer alone (and report why).
    Skip(TextureSkip),
}

/// The renderer handle of a GUI texture in `m`, if it has one.
pub open spec fn handle_in(m: Map<u64, u16>, id: TextureId) -> Option<u16> {
    match id {
        TextureId::Managed(k) => if m.contains_key(k) {
            Some(m[k])
        } else {
            None
        },
        TextureId::User(_) => None,
    }
}

pub open spec fn max_u32(a: u32, b: u32) -> u32 {
    if a > b {
        a
    } else {
        b
    }
}

/// `c` is the command for delta `d` against the texture map `m`.
pub open spec fn is_command_for(m: Map<u64, u16>, d: &TextureDelta, c: &TextureCommand) -> bool {
    match d.id {
        TextureId::User(_) => *c == TextureCommand::Skip(TextureSkip::UserTexture),
        TextureId::Managed(k) => match d.pos {
            None => match c {
                TextureCommand::Create { id, name, size, width, height, texels } => {
                    &&& *id == k
                    &&& name@ == texture_name_of(k)
                    &&& *width == d.image.spec_width()
                    &&& *height == d.image.spec_height()
                    &&& *size == max_u32(*width, *height)
                    &&& texels@ == image_texels(&d.image, 0, 0)
                },
                _ => false,
            },
            Some(p) => if m.contains_key(k) {
                match c {
                    TextureCommand::Patch { handle, name, texels } => {
                        &&& *handle == m[k]
                        &&& name@ == texture_name_of(k)
                        &&& texels@ == image_texels(&d.image, p[0], p[1])
                    },
                    _ => false,
                }
            } else {
                *c == TextureCommand::Skip(TextureSkip::UnknownTexture)
            },
        },
    }
}

/// The texture map after delta `d` has been carried out, where `h` is the
/// handle that the renderer returned if the delta created a texture.
pub open spec fn after_delta(m: Map<u64, u16>, d: &TextureDelta, h: u16) -> Map<u64, u16> {
    match (d.id, d.pos) {
        (TextureId::Managed(k), None) => m.insert(k, h),
        _ => m,
    }
}

/// The texture map after a batch of deltas carried out in order, where
/// `hs[i]` is the handle returned for `ds[i]` if it created a texture.
pub open spec fn after_deltas(m: Map<u64, u16>, ds: Seq<TextureDelta>, hs: Seq<u16>) -> Map<
    u64,
    u16,
>
    decreases ds.len(),
{
    if ds.len() == 0 {
        m
    } else {
        after_delta(after_deltas(m, ds.drop_last(), hs.drop_last()), &ds.last(), hs.last())
    }
}

/// The delta creates (or recreates) a GUI-managed texture.
pub open spec fn is_create(d: &TextureDelta) -> bool {
    d.id is Managed && d.pos is None
}

/// Creating textures whose ids are all different registers each id under
/// the handle that its creation returned, and a run of patches that follows
/// leaves every entry as it was: each patch of one of those ids is sent to
/// that same handle.
pub proof fn lemma_creates_then_patches(
    m: Map<u64, u16>,
    creates: Seq<TextureDelta>,
    hs: Seq<u16>,
    patches: Seq<TextureDelta>,
    phs: Seq<u16>,
)
    requires
        hs.len() == creates.len(),
        phs.len() == patches.len(),
        forall|i: int| 0 <= i < creates.len() ==> is_create(&#[trigger] creates[i]),
        forall|i: int, j: int|
            0 <= i < creates.len() && 0 <= j < creates.len() && i != j ==> #[trigger] creates[i].id
                != #[trigger] creates[j].id,
        forall|i: int| 0 <= i < patches.len() ==> (#[trigger] patches[i]).pos is Some,
    ensures
        forall|i: int|
            0 <= i < creates.len() ==> handle_in(after_deltas(m, creates, hs), #[trigger] creates[i].id)
                == Some(hs[i]),
        after_deltas(after_deltas(m, creates, hs), patches, phs) == after_deltas(m, creates, hs),
        forall|i: int, p: TextureDelta, c: TextureCommand|
            #![trigger is_command_for(after_deltas(m, creates, hs), &p, &c), creates[i]]
            0 <= i < creates.len() && p.id == creates[i].id && p.pos is Some && is_command_for(
                after_deltas(m, creates, hs),
                &p,
                &c,
            ) ==> (c matches TextureCommand::Patch { handle, .. } && handle == hs[i]),
{
    lemma_distinct_creates(m, creates, hs);
    lemma_patches_keep_map(after_deltas(m, creates, hs), patches, phs);
}

proof fn lemma_distinct_creates(m: Map<u64, u16>, creates: Seq<TextureDelta>, hs: Seq<u16>)
    requires
        hs.len() == creates.len(),
        forall|i: int| 0 <= i < creates.len() ==> is_create(&#[trigger] creates[i]),
        forall|i: int, j: int|
            0 <= i < creates.len() && 0 <= j < creates.len() && i != j ==> #[trigger] creates[i].id
                != #[trigger] creates[j].id,
    ensures
        forall|i: int|
            0 <= i < creates.len() ==> handle_in(after_deltas(m, creates, hs), #[trigger] creates[i].id)
                == Some(hs[i]),
    decreases creates.len(),
{
    if creates.len() > 0 {
        let n = creates.len() - 1;
        let cs = creates.drop_last();
        let hs0 = hs.drop_last();
        assert forall|i: int| 0 <= i < cs.len() implies is_create(&#[trigger] cs[i]) by {
            assert(cs[i] == creates[i]);
        }
        assert forall|i: int, j: int|
            0 <= i < cs.len() && 0 <= j < cs.len() && i != j implies #[trigger] cs[i].id
                != #[trigger] cs[j].id by {
            assert(cs[i] == creates[i] && cs[j] == creates[j]);
        }
        lemma_distinct_creates(m, cs, hs0);
        assert forall|i: int|
            0 <= i < creates.len() implies handle_in(
                after_deltas(m, creates, hs),
                #[trigger] creates[i].id,
            ) == Some(hs[i]) by {
            assert(is_create(&creates[i]));
            assert(is_create(&creates[n]));
            if i < n {
                assert(cs[i] == creates[i]);
                assert(creates[i].id != creates[n].id);
            }
        }
    }
}

proof fn lemma_patches_keep_map(m: Map<u64, u16>, patches: Seq<TextureDelta>, phs: Seq<u16>)
    requires
        phs.len() == patches.len(),
        forall|i: int| 0 <= i < patches.len() ==> (#[trigger] patches[i]).pos is Some,
    ensures
        after_deltas(m, patches, phs) == m,
    decreases patches.len(),
{
    if patches.len() > 0 {
        let ps = patches.drop_last();
        assert forall|i: int| 0 <= i < ps.len() implies (#[trigger] ps[i]).pos is Some by {
            assert(ps[i] == patches[i]);
        }
        lemma_patches_keep_map(m, ps, phs.drop_last());
        assert(patches.last().pos is Some);
    }
}

/// Some delta of the batch creates the texture `Managed(k)`.
pub open spec fn created_in(ds: Seq<TextureDelta>, k: u64) -> bool {
    exists|i: int| 0 <= i < ds.len() && is_create(&ds[i]) && #[trigger] ds[i].id == TextureId::Managed(k)
}

/// Carrying out one batch whose creates have distinct ids registers each
/// created id under the handle its creation returned, and leaves every
/// other entry of the map as it was, whatever patches the batch holds.
pub proof fn lemma_batch_registers_creates(m: Map<u64, u16>, ds: Seq<TextureDelta>, hs: Seq<u16>)
    requires
        hs.len() == ds.len(),
        forall|i: int, j: int|
            0 <= i < j < ds.len() && is_create(&ds[i]) && is_create(&ds[j]) ==> #[trigger] ds[i].id
                != #[trigger] ds[j].id,
    ensures
        forall|i: int|
            0 <= i < ds.len() && is_create(&ds[i]) ==> handle_in(after_deltas(m, ds, hs), #[trigger] ds[i].id)
                == Some(hs[i]),
        forall|k: u64|
            !created_in(ds, k) ==> (#[trigger] after_deltas(m, ds, hs).contains_key(k) == m.contains_key(k)
                && (m.contains_key(k) ==> after_deltas(m, ds, hs)[k] == m[k])),
    decreases ds.len(),
{
    if ds.len() > 0 {
        let n = ds.len() - 1;
        let rest = ds.drop_last();
        let hr = hs.drop_last();
        assert forall|i: int, j: int|
            0 <= i < j < rest.len() && is_create(&rest[i]) && is_create(&rest[j]) implies #[trigger] rest[i].id
                != #[trigger] rest[j].id by {
            assert(rest[i] == ds[i] && rest[j] == ds[j]);
        }
        lemma_batch_registers_creates(m, rest, hr);
        let prev = after_deltas(m, rest, hr);
        assert forall|i: int|
            0 <= i < ds.len() && is_create(&ds[i]) implies handle_in(
                after_deltas(m, ds, hs),
                #[trigger] ds[i].id,
            ) == Some(hs[i]) by {
            if i < n {
                assert(rest[i] == ds[i]);
                if is_create(&ds[n]) {
                    assert(ds[i].id != ds[n].id);
                }
            }
        }
        assert forall|k: u64| !created_in(ds, k) implies (#[trigger] after_deltas(
            m,
            ds,
            hs,
        ).contains_key(k) == m.contains_key(k) && (m.contains_key(k) ==> after_deltas(m, ds, hs)[k]
            == m[k])) by {
            if created_in(rest, k) {
                let i = choose|i: int|
                    0 <= i < rest.len() && is_create(&rest[i]) && #[trigger] rest[i].id
                        == TextureId::Managed(k);
                assert(ds[i] == rest[i]);
            }
            if is_create(&ds[n]) && ds[n].id == TextureId::Managed(k) {
                assert(created_in(ds, k));
            }
        }
    }
}

/// A patch for a texture that has not been created is skipped: the texture
/// map gains no entry.
pub proof fn lemma_patch_before_create(m: Map<u64, u16>, d: TextureDelta, h: u16, c: TextureCommand)
    requires
        d.id is Managed,
        d.pos is Some,
        !m.contains_key(d.id->Managed_0),
        is_command_for(m, &d, &c),
    ensures
        c == TextureCommand::Skip(TextureSkip::UnknownTexture),
        after_delta(m, &d, h) == m,
{
}

/// The full-image deltas (creates) of a batch, in arrival order.
pub open spec fn creates_of(ds: Seq<TextureDelta>) -> Seq<TextureDelta>
    decreases ds.len(),
{
    if ds.len() == 0 {
        ds
    } else if ds.last().pos is None {
        creates_of(ds.drop_last()).push(ds.last())
    } else {
        creates_of(ds.drop_last())
    }
}

/// The patch deltas of a batch, in arrival order.
pub open spec fn patches_of(ds: Seq<TextureDelta>) -> Seq<TextureDelta>
    decreases ds.len(),
{
    if ds.len() == 0 {
        ds
    } else if ds.last().pos is Some {
        patches_of(ds.drop_last()).push(ds.last())
    } else {
        patches_of(ds.drop_last())
    }
}

proof fn lemma_split_batch(ds: Seq<TextureDelta>)
    ensures
        (creates_of(ds) + patches_of(ds)).to_multiset() == ds.to_multiset(),
        forall|i: int| 0 <= i < creates_of(ds).len() ==> (#[trigger] creates_of(ds)[i]).pos is None,
        forall|i: int| 0 <= i < patches_of(ds).len() ==> (#[trigger] patches_of(ds)[i]).pos is Some,
    decreases ds.len(),
{
    broadcast use group_to_multiset_ensures;

    if ds.len() == 0 {
        assert(creates_of(ds) + patches_of(ds) =~= ds);
    } else {
        let rest = ds.drop_last();
        let x = ds.last();
        lemma_split_batch(rest);
        assert(rest.push(x) =~= ds);
        lemma_multiset_commutative(creates_of(rest), patches_of(rest));
        lemma_multiset_commutative(creates_of(ds), patches_of(ds));
        assert(ds.to_multiset() =~= rest.to_multiset().insert(x));
        if x.pos is None {
            assert(creates_of(ds).to_multiset() =~= creates_of(rest).to_multiset().insert(x));
        } else {
            assert(patches_of(ds).to_multiset() =~= patches_of(rest).to_multiset().insert(x));
        }
        assert((creates_of(ds) + patches_of(ds)).to_multiset() =~= ds.to_multiset());
    }
}

/// Orders a batch of texture deltas so that every create comes before any
/// patch: the creates in arrival order, then the patches in arrival order.
/// A patch of a texture created in the same batch then finds it, whatever
/// the order the deltas arrived in.
pub fn order_batch(deltas: Vec<TextureDelta>) -> (r: Vec<TextureDelta>)
    ensures
        r@ == creates_of(deltas@) + patches_of(deltas@),
        r@.to_multiset() == deltas@.to_multiset(),
        forall|i: int, j: int|
            0 <= i < j < r@.len() && (#[trigger] r@[j]).pos is None ==> (#[trigger] r@[i]).pos is None,
{
    let ghost all = deltas@;
    let n = deltas.len();
    let mut rest = deltas;
    let mut creates: Vec<TextureDelta> = Vec::new();
    let mut patches: Vec<TextureDelta> = Vec::new();
    let mut i: usize = 0;
    while rest.len() > 0
        invariant
            n == all.len(),
            i <= all.len(),
            rest@ == all.skip(i as int),
            creates@ == creates_of(all.take(i as int)),
            patches@ == patches_of(all.take(i as int)),
        decreases rest@.len(),
    {
        let d = rest.remove(0);
        assert(all.take(i + 1).drop_last() =~= all.take(i as int));
        assert(d == all[i as int]);
        if d.pos.is_none() {
            creates.push(d);
        } else {
            patches.push(d);
        }
        assert(rest@ =~= all.skip(i + 1));
        i = i + 1;
    }
    assert(all.take(i as int) =~= all);
    proof {
        lemma_split_batch(all);
    }
    creates.append(&mut patches);
    let r = creates;
    assert forall|i: int, j: int|
        0 <= i < j < r@.len() && (#[trigger] r@[j]).pos is None implies (#[trigger] r@[i]).pos is None by {
        let c = creates_of(all);
        if j >= c.len() {
            assert(r@[j] == patches_of(all)[j - c.len()]);
        } else {
            assert(r@[i] == c[i]);
        }
    }
    r
}

/// Maps GUI texture ids to renderer texture handles. Entries are added when
/// a texture is created and never removed.
pub struct TextureIdMap {
    handles: HashMap<u64, u16>,
}

impl View for TextureIdMap {
    type V = Map<u64, u16>;

    closed spec fn view(&self) -> Map<u64, u16> {
        self.handles@
    }
}

impl TextureIdMap {
    pub fn new() -> (r: TextureIdMap)
        ensures
            r@ == Map::<u64, u16>::empty(),
    {
        TextureIdMap { handles: HashMap::new() }
    }

    /// The renderer handle for a mesh's texture, or `None` when the texture
    /// has not been created (the mesh is then skipped).
    pub fn get_or_skip(&self, id: TextureId) -> (r: Option<u16>)
        ensures
            r == handle_in(self@, id),
    {
        match id {
            TextureId::Managed(k) => match self.handles.get(&k) {
                Some(h) => Some(*h),
                None => None,
            },
            TextureId::User(_) => None,
        }
    }

    /// Records the handle of a texture that the renderer has created.
    pub fn insert(&mut self, id: u64, handle: u16)
        ensures
            final(self)@ == old(self)@.insert(id, handle),
    {
        self.handles.insert(id, handle);
    }

    /// Decides what the renderer must do for one delta: create the texture
    /// (full image), patch it (known texture), or skip the delta (user
    /// texture, or a patch that arrives before its texture was created).
    pub fn command(&self, delta: &TextureDelta) -> (r: TextureCommand)
        ensures
            is_command_for(self@, delta, &r),
    {
        match delta.id {
            TextureId::User(_) => TextureCommand::Skip(TextureSkip::UserTexture),
            TextureId::Managed(k) => match delta.pos {
                None => {
                    let width = delta.image.width();
                    let height = delta.image.height();
                    let size = if width > height {
                        width
                    } else {
                        height
                    };
                    TextureCommand::Create {
                        id: k,
                        name: texture_name(k),
                        size,
                        width,
                        height,
                        texels: texels_from_image(&delta.image, 0, 0),
                    }
                },
                Some(p) => match self.handles.get(&k) {
                    Some(h) => TextureCommand::Patch {
                        handle: *h,
                        name: texture_name(k),
                        texels: texels_from_image(&delta.image, p[0], p[1]),
                    },
                    None => TextureCommand::Skip(TextureSkip::UnknownTexture),
                },
            },
        }
    }
}

} // verus!
