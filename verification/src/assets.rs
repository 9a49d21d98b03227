//! The asset pool: materials, textures and shaders, loaded once and shared
//! by name.
//!
//! The pool never reads a file or talks to the GPU. A load that finds the
//! asset hands out a share of it. A load that does not says what has to be
//! created; the caller creates it and stores it. An asset leaves the pool
//! only when no share of it is out and, for a texture or shader, no loaded
//! material names it.
//!
//! A share is counted when it is handed out and until it is given back
//! with one of the `release_*` functions. The pool's own hold on an asset is
//! not counted, and neither is a material's mention of a texture or shader.
//! A count that reaches the largest number there is stays there: the asset
//! is then kept until the pool is emptied.
//! A texture is created with the filter of the load that first asked for
//! it; a later load under another filter gets the texture as it is.

use crate::error::AssetError;
use crate::material::{gl_filter, to_gl_filter, MagnificationFilter, Material, MaterialView};
use crate::renderer::{GpuCommand, ResourceKind};
use crate::shader::Shader;
use crate::texture::Texture;
use vstd::prelude::*;
use vstd::string::StringExecFns;

verus! {

/// An asset in the pool: the name it goes by, the asset, and how many
/// shares of it have been handed out and not yet given back.
#[derive(Debug)]
pub struct Slot<T> {
    pub name: String,
    pub asset: T,
    pub holders: usize,
}

/// Whether an asset goes by `name`.
pub open spec fn known<T>(slots: Seq<Slot<T>>, name: Seq<char>) -> bool {
    exists|i: int| 0 <= i < slots.len() && (#[trigger] slots[i]).name@ == name
}

/// Where the asset that goes by `name` sits, if there is one.
pub open spec fn position<T>(slots: Seq<Slot<T>>, name: Seq<char>) -> int {
    choose|i: int| 0 <= i < slots.len() && (#[trigger] slots[i]).name@ == name
}

/// Whether no two assets go by the same name.
pub open spec fn distinct<T>(slots: Seq<Slot<T>>) -> bool {
    forall|i: int, j: int|
        #![trigger slots[i], slots[j]]
        0 <= i < j < slots.len() ==> slots[i].name@ != slots[j].name@
}

/// With distinct names, an asset found under a name is the one `position`
/// speaks of.
pub proof fn lemma_position<T>(slots: Seq<Slot<T>>, name: Seq<char>, i: int)
    requires
        distinct(slots),
        0 <= i < slots.len(),
        slots[i].name@ == name,
    ensures
        known(slots, name),
        position(slots, name) == i,
{
    let p = position(slots, name);
    assert(slots[p].name@ == name);
    if p < i {
        assert(slots[p].name@ != slots[i].name@);
    } else if i < p {
        assert(slots[i].name@ != slots[p].name@);
    }
}

/// How many shares of the asset that goes by `name` are out.
pub open spec fn holders_of<T>(slots: Seq<Slot<T>>, name: Seq<char>) -> nat {
    if known(slots, name) {
        slots[position(slots, name)].holders as nat
    } else {
        0
    }
}

/// Whether the count of shares of the asset that goes by `name` stands at
/// the largest number there is. Such a count has lost track and moves no
/// more, up or down: the asset stays until the pool is emptied.
pub open spec fn pinned<T>(slots: Seq<Slot<T>>, name: Seq<char>) -> bool {
    known(slots, name) && slots[position(slots, name)].holders == usize::MAX
}

/// The assets after one more share of `name` went out.
pub open spec fn shared<T>(slots: Seq<Slot<T>>, name: Seq<char>) -> Seq<Slot<T>> {
    if known(slots, name) && !pinned(slots, name) {
        let i = position(slots, name);
        slots.update(i, Slot { holders: (slots[i].holders + 1) as usize, ..slots[i] })
    } else {
        slots
    }
}

/// The assets after one share of `name` came back, if one was out.
pub open spec fn released<T>(slots: Seq<Slot<T>>, name: Seq<char>) -> Seq<Slot<T>> {
    if holders_of(slots, name) > 0 && !pinned(slots, name) {
        let i = position(slots, name);
        slots.update(i, Slot { holders: (slots[i].holders - 1) as usize, ..slots[i] })
    } else {
        slots
    }
}

/// The assets without the one that goes by `name`.
pub open spec fn removed<T>(slots: Seq<Slot<T>>, name: Seq<char>) -> Seq<Slot<T>> {
    if known(slots, name) {
        slots.remove(position(slots, name))
    } else {
        slots
    }
}

/// Whether the material names the texture.
pub open spec fn lists_texture(material: MaterialView, name: Seq<char>) -> bool {
    exists|k: int| 0 <= k < material.textures.len() && (#[trigger] material.textures[k]).0 == name
}

/// Whether one of the materials names the texture.
pub open spec fn texture_in_use(materials: Seq<Slot<Material>>, name: Seq<char>) -> bool {
    exists|i: int|
        0 <= i < materials.len() && lists_texture((#[trigger] materials[i]).asset@, name)
}

/// Whether one of the materials names the shader.
pub open spec fn shader_in_use(materials: Seq<Slot<Material>>, name: Seq<char>) -> bool {
    exists|i: int| 0 <= i < materials.len() && (#[trigger] materials[i]).asset@.shader == name
}

/// Whether the first `count` textures the material names are loaded.
pub open spec fn textures_loaded(
    material: MaterialView,
    textures: Seq<Slot<Texture>>,
    count: int,
) -> bool {
    forall|k: int| 0 <= k < count ==> known(textures, (#[trigger] material.textures[k]).0)
}

/// Whether the shader and every texture the material names are loaded.
pub open spec fn complete(
    material: MaterialView,
    textures: Seq<Slot<Texture>>,
    shaders: Seq<Slot<Shader>>,
) -> bool {
    &&& textures_loaded(material, textures, material.textures.len() as int)
    &&& known(shaders, material.shader)
}

/// Whether every material finds what it names.
pub open spec fn resolvable(
    materials: Seq<Slot<Material>>,
    textures: Seq<Slot<Texture>>,
    shaders: Seq<Slot<Shader>>,
) -> bool {
    forall|i: int|
        0 <= i < materials.len() ==> complete((#[trigger] materials[i]).asset@, textures, shaders)
}

/// The delete command for every texture, in their order.
pub open spec fn texture_deletions(textures: Seq<Slot<Texture>>) -> Seq<GpuCommand> {
    textures.map_values(
        |slot: Slot<Texture>| GpuCommand::Delete { kind: ResourceKind::Texture, id: slot.asset.name() },
    )
}

/// The delete command for every shader, in their order.
pub open spec fn shader_deletions(shaders: Seq<Slot<Shader>>) -> Seq<GpuCommand> {
    shaders.map_values(
        |slot: Slot<Shader>|
            GpuCommand::Delete { kind: ResourceKind::ShaderProgram, id: slot.asset.name() },
    )
}

/// A texture that has to be created: the name to load it by and OpenGL's
/// number for the magnification filter to give it.
#[derive(Debug, PartialEq, Eq)]
pub struct TextureRequest {
    pub name: String,
    pub mag_filter: u32,
}

/// A shader that has to be created: the name to load it by.
#[derive(Debug, PartialEq, Eq)]
pub struct ShaderRequest {
    pub name: String,
}

/// Something a material needs that is not loaded yet.
#[derive(Debug, PartialEq, Eq)]
pub enum AssetRequest {
    Texture(TextureRequest),
    Shader(ShaderRequest),
}

/// What became of a GPU object that was handed to the pool.
#[derive(Clone, Copy, Debug, PartialEq, Eq)]
pub struct Stored<T> {
    /// The asset that goes by the name now.
    pub kept: T,
    /// The command that deletes the object that was handed over, where the
    /// pool did not take it: nobody holds it.
    pub discard: Option<GpuCommand>,
}

/// The command that deletes the object named `id`, unless it is the object
/// named `kept`.
pub open spec fn discarded(kind: ResourceKind, kept: u32, id: u32) -> Option<GpuCommand> {
    if kept == id {
        None
    } else {
        Some(GpuCommand::Delete { kind, id })
    }
}

/// What a texture load came to.
#[derive(Debug, PartialEq, Eq)]
pub enum TextureLoad {
    /// The texture is loaded; this is a share of it.
    Ready(Texture),
    /// The texture is not loaded; create it, store it and load again.
    Create(TextureRequest),
}

/// What a shader load came to.
#[derive(Debug, PartialEq, Eq)]
pub enum ShaderLoad {
    /// The shader is loaded; this is a share of it.
    Ready(Shader),
    /// The shader is not loaded; create it, store it and load again.
    Create(ShaderRequest),
}

/// What a material load came to.
#[derive(Debug, PartialEq, Eq)]
pub enum MaterialLoad {
    /// The material is loaded; this is a share of it.
    Ready(Material),
    /// The material is not loaded; look its description up, load what it
    /// names, store it and load again.
    Resolve,
}

/// Assets that go by other names are untouched by a change to one slot
/// that keeps its name.
pub proof fn lemma_update_keeps_names<T>(slots: Seq<Slot<T>>, i: int, slot: Slot<T>, name: Seq<char>)
    requires
        0 <= i < slots.len(),
        slot.name@ == slots[i].name@,
    ensures
        known(slots.update(i, slot), name) == known(slots, name),
        distinct(slots) ==> distinct(slots.update(i, slot)),
        distinct(slots) && known(slots, name) ==> position(slots.update(i, slot), name) == position(
            slots,
            name,
        ),
{
    let after = slots.update(i, slot);
    if known(slots, name) {
        let k = position(slots, name);
        assert(after[k].name@ == name);
    }
    if known(after, name) {
        let k = position(after, name);
        assert(slots[k].name@ == name);
    }
    if distinct(slots) {
        assert forall|a: int, b: int| 0 <= a < b < after.len() implies after[a].name@
            != after[b].name@ by {
            assert(slots[a].name@ != slots[b].name@);
        }
        if known(slots, name) {
            let k = position(slots, name);
            lemma_position(after, name, k);
        }
    }
}

/// Appending an asset under a new name makes that name known and changes
/// nothing else.
pub proof fn lemma_push_adds_name<T>(slots: Seq<Slot<T>>, slot: Slot<T>, name: Seq<char>)
    ensures
        known(slots.push(slot), name) == (known(slots, name) || slot.name@ == name),
        distinct(slots) && !known(slots, slot.name@) ==> distinct(slots.push(slot)),
        distinct(slots) && !known(slots, slot.name@) && known(slots, name) ==> position(
            slots.push(slot),
            name,
        ) == position(slots, name),
        distinct(slots) && !known(slots, slot.name@) && slot.name@ == name ==> position(
            slots.push(slot),
            name,
        ) == slots.len(),
{
    let after = slots.push(slot);
    if known(slots, name) {
        let k = position(slots, name);
        assert(after[k].name@ == name);
    }
    if slot.name@ == name {
        assert(after[slots.len() as int].name@ == name);
    }
    if known(after, name) {
        let k = position(after, name);
        if k < slots.len() {
            assert(slots[k].name@ == name);
        }
    }
    if distinct(slots) && !known(slots, slot.name@) {
        assert forall|a: int, b: int| 0 <= a < b < after.len() implies after[a].name@
            != after[b].name@ by {
            if b < slots.len() {
                assert(slots[a].name@ != slots[b].name@);
            } else {
                assert(slots[a].name@ != slot.name@);
            }
        }
        if known(slots, name) {
            lemma_position(after, name, position(slots, name));
        }
        if slot.name@ == name {
            lemma_position(after, name, slots.len() as int);
        }
    }
}

/// Taking an asset out makes its name unknown and changes nothing else.
pub proof fn lemma_remove_drops_name<T>(slots: Seq<Slot<T>>, i: int, name: Seq<char>)
    requires
        distinct(slots),
        0 <= i < slots.len(),
    ensures
        known(slots.remove(i), name) == (known(slots, name) && slots[i].name@ != name),
        distinct(slots.remove(i)),
{
    let after = slots.remove(i);
    if known(slots, name) && slots[i].name@ != name {
        let k = position(slots, name);
        if k < i {
            assert(after[k].name@ == name);
        } else {
            assert(after[k - 1].name@ == name);
        }
    }
    if known(after, name) {
        let k = position(after, name);
        if k < i {
            assert(slots[k].name@ == name);
        } else {
            assert(slots[k + 1].name@ == name);
            assert(slots[i].name@ != slots[k + 1].name@);
        }
    }
    assert forall|a: int, b: int| 0 <= a < b < after.len() implies after[a].name@
        != after[b].name@ by {
        let a0 = if a < i { a } else { a + 1 };
        let b0 = if b < i { b } else { b + 1 };
        assert(slots[a0].name@ != slots[b0].name@);
    }
}

fn find<T>(slots: &Vec<Slot<T>>, name: &str) -> (found: Option<usize>)
    ensures
        match found {
            Some(i) => i < slots@.len() && slots@[i as int].name@ == name@,
            None => !known(slots@, name@),
        },
{
    let wanted = String::from_str(name);
    let mut i: usize = 0;
    while i < slots.len()
        invariant
            i <= slots.len(),
            wanted@ == name@,
            forall|k: int| 0 <= k < i ==> (#[trigger] slots@[k]).name@ != name@,
        decreases slots.len() - i,
    {
        if slots[i].name == wanted {
            return Some(i);
        }
        i += 1;
    }
    None
}

/// Counts one more share of the asset that goes by `name`, if there is such
/// an asset. Returns where the asset sits.
fn share<T>(slots: &mut Vec<Slot<T>>, name: &str) -> (found: Option<usize>)
    requires
        distinct(old(slots)@),
    ensures
        final(slots)@ == shared(old(slots)@, name@),
        distinct(final(slots)@),
        match found {
            Some(i) => known(old(slots)@, name@) && i == position(old(slots)@, name@),
            None => !known(old(slots)@, name@),
        },
{
    match find(slots, name) {
        Some(i) => {
            proof {
                lemma_position(slots@, name@, i as int);
            }
            if slots[i].holders < usize::MAX {
                let ghost slot = Slot {
                    holders: (slots@[i as int].holders + 1) as usize,
                    ..slots@[i as int]
                };
                proof {
                    lemma_update_keeps_names(slots@, i as int, slot, name@);
                }
                slots[i].holders = slots[i].holders + 1;
            }
            Some(i)
        },
        None => None,
    }
}

/// Takes back one share of the asset that goes by `name`, if one is out.
fn release<T>(slots: &mut Vec<Slot<T>>, name: &str) -> (given_back: bool)
    requires
        distinct(old(slots)@),
    ensures
        final(slots)@ == released(old(slots)@, name@),
        distinct(final(slots)@),
        given_back == (holders_of(old(slots)@, name@) > 0 && !pinned(old(slots)@, name@)),
{
    match find(slots, name) {
        Some(i) => {
            proof {
                lemma_position(slots@, name@, i as int);
            }
            if slots[i].holders > 0 && slots[i].holders < usize::MAX {
                let ghost slot = Slot {
                    holders: (slots@[i as int].holders - 1) as usize,
                    ..slots@[i as int]
                };
                proof {
                    lemma_update_keeps_names(slots@, i as int, slot, name@);
                }
                slots[i].holders = slots[i].holders - 1;
                true
            } else {
                false
            }
        },
        None => false,
    }
}

/// Where the first texture at or after `from` that the material names and
/// that is not loaded stands in the material's list; the length of the list
/// if there is none.
pub open spec fn first_missing(
    material: MaterialView,
    textures: Seq<Slot<Texture>>,
    from: int,
) -> int
    decreases material.textures.len() - from,
{
    if from < 0 || from >= material.textures.len() || !known(textures, material.textures[from].0) {
        from
    } else {
        first_missing(material, textures, from + 1)
    }
}

/// Everything before the first missing texture is loaded, and where it
/// reaches the end of the list, every texture is.
pub proof fn lemma_first_missing(material: MaterialView, textures: Seq<Slot<Texture>>, from: int)
    requires
        0 <= from <= material.textures.len(),
    ensures
        from <= first_missing(material, textures, from) <= material.textures.len(),
        forall|k: int|
            from <= k < first_missing(material, textures, from) ==> known(
                textures,
                (#[trigger] material.textures[k]).0,
            ),
        first_missing(material, textures, from) < material.textures.len() ==> !known(
            textures,
            material.textures[first_missing(material, textures, from)].0,
        ),
    decreases material.textures.len() - from,
{
    if from < material.textures.len() && known(textures, material.textures[from].0) {
        lemma_first_missing(material, textures, from + 1);
    }
}

/// Loading what a material is missing gets somewhere: once the first
/// missing texture is stored, the first missing texture stands further
/// down the material's list, or none is missing. So a caller who keeps
/// storing what is asked for is asked a finite number of times.
pub proof fn lemma_storing_makes_progress(
    material: MaterialView,
    textures: Seq<Slot<Texture>>,
    slot: Slot<Texture>,
)
    requires
        first_missing(material, textures, 0) < material.textures.len(),
        slot.name@ == material.textures[first_missing(material, textures, 0)].0,
    ensures
        first_missing(material, textures, 0) < first_missing(material, textures.push(slot), 0)
            <= material.textures.len(),
{
    let k = first_missing(material, textures, 0);
    lemma_first_missing(material, textures, 0);
    lemma_first_missing(material, textures.push(slot), 0);
    let after = first_missing(material, textures.push(slot), 0);
    assert forall|j: int| 0 <= j <= k implies known(
        textures.push(slot),
        (#[trigger] material.textures[j]).0,
    ) by {
        lemma_push_adds_name(textures, slot, material.textures[j].0);
    }
    if after <= k {
        assert(known(textures.push(slot), material.textures[after].0));
    }
}

/// A pool keeps finding what its materials name when every name that was
/// known stays known.
pub proof fn lemma_resolvable_grows(
    materials: Seq<Slot<Material>>,
    textures: Seq<Slot<Texture>>,
    shaders: Seq<Slot<Shader>>,
    more_textures: Seq<Slot<Texture>>,
    more_shaders: Seq<Slot<Shader>>,
)
    requires
        resolvable(materials, textures, shaders),
        forall|name: Seq<char>| #[trigger] known(textures, name) ==> known(more_textures, name),
        forall|name: Seq<char>| #[trigger] known(shaders, name) ==> known(more_shaders, name),
    ensures
        resolvable(materials, more_textures, more_shaders),
{
    assert forall|i: int| 0 <= i < materials.len() implies complete(
        (#[trigger] materials[i]).asset@,
        more_textures,
        more_shaders,
    ) by {
        let material = materials[i].asset@;
        assert(complete(material, textures, shaders));
        assert forall|k: int| 0 <= k < material.textures.len() implies known(
            more_textures,
            (#[trigger] material.textures[k]).0,
        ) by {
            assert(known(textures, material.textures[k].0));
        }
    }
}

/// In a pool whose materials find what they name, a texture or shader that
/// a loaded material names is loaded.
pub proof fn lemma_named_is_loaded(
    materials: Seq<Slot<Material>>,
    textures: Seq<Slot<Texture>>,
    shaders: Seq<Slot<Shader>>,
    name: Seq<char>,
)
    requires
        resolvable(materials, textures, shaders),
    ensures
        texture_in_use(materials, name) ==> known(textures, name),
        shader_in_use(materials, name) ==> known(shaders, name),
{
    if texture_in_use(materials, name) {
        let i = choose|i: int|
            0 <= i < materials.len() && lists_texture((#[trigger] materials[i]).asset@, name);
        let material = materials[i].asset@;
        let k = choose|k: int|
            0 <= k < material.textures.len() && (#[trigger] material.textures[k]).0 == name;
        assert(complete(material, textures, shaders));
        assert(known(textures, material.textures[k].0));
    }
    if shader_in_use(materials, name) {
        let i = choose|i: int|
            0 <= i < materials.len() && (#[trigger] materials[i]).asset@.shader == name;
        assert(complete(materials[i].asset@, textures, shaders));
    }
}

/// The assets after `count` shares of `name` went out one after the other.
pub open spec fn shared_times<T>(slots: Seq<Slot<T>>, name: Seq<char>, count: nat) -> Seq<Slot<T>>
    decreases count,
{
    if count == 0 {
        slots
    } else {
        shared(shared_times(slots, name, (count - 1) as nat), name)
    }
}

/// The assets after `count` shares of `name` came back one after the other.
pub open spec fn released_times<T>(slots: Seq<Slot<T>>, name: Seq<char>, count: nat) -> Seq<
    Slot<T>,
>
    decreases count,
{
    if count == 0 {
        slots
    } else {
        released(released_times(slots, name, (count - 1) as nat), name)
    }
}

/// Handing out a share creates nothing: as many assets as before go by
/// the same names, each is the asset it was, and only the count of the
/// asset shared has moved, by one.
pub proof fn lemma_share_creates_nothing<T>(slots: Seq<Slot<T>>, name: Seq<char>, other: Seq<char>)
    requires
        distinct(slots),
    ensures
        distinct(shared(slots, name)),
        shared(slots, name).len() == slots.len(),
        known(shared(slots, name), other) == known(slots, other),
        known(slots, other) ==> position(shared(slots, name), other) == position(slots, other)
            && shared(slots, name)[position(slots, other)].asset == slots[position(
            slots,
            other,
        )].asset,
        holders_of(shared(slots, name), other) == holders_of(slots, other) + if other == name
            && known(slots, name) && !pinned(slots, name) {
            1nat
        } else {
            0nat
        },
{
    if known(slots, name) && !pinned(slots, name) {
        let i = position(slots, name);
        lemma_update_keeps_names(slots, i, shared(slots, name)[i], other);
        if known(slots, other) {
            let k = position(slots, other);
            if other != name {
                assert(slots[k].name@ != slots[i].name@);
            }
        }
    }
}

/// Taking back a share destroys nothing: as many assets as before go by
/// the same names, each is the asset it was, and only the count of the
/// asset given back has moved, by one.
pub proof fn lemma_release_destroys_nothing<T>(
    slots: Seq<Slot<T>>,
    name: Seq<char>,
    other: Seq<char>,
)
    requires
        distinct(slots),
    ensures
        distinct(released(slots, name)),
        released(slots, name).len() == slots.len(),
        known(released(slots, name), other) == known(slots, other),
        known(slots, other) ==> position(released(slots, name), other) == position(slots, other)
            && released(slots, name)[position(slots, other)].asset == slots[position(
            slots,
            other,
        )].asset,
        holders_of(released(slots, name), other) == holders_of(slots, other) - if other == name
            && holders_of(slots, name) > 0 && !pinned(slots, name) {
            1int
        } else {
            0int
        },
{
    if holders_of(slots, name) > 0 && !pinned(slots, name) {
        let i = position(slots, name);
        lemma_update_keeps_names(slots, i, released(slots, name)[i], other);
        if known(slots, other) {
            let k = position(slots, other);
            if other != name {
                assert(slots[k].name@ != slots[i].name@);
            }
        }
    }
}

/// However often an asset is asked for, it stays one asset: after any
/// number of shares the pool holds as many assets as before, and the one
/// that goes by the name is the one that did.
pub proof fn lemma_loaded_once<T>(slots: Seq<Slot<T>>, name: Seq<char>, count: nat)
    requires
        distinct(slots),
        known(slots, name),
    ensures
        distinct(shared_times(slots, name, count)),
        shared_times(slots, name, count).len() == slots.len(),
        known(shared_times(slots, name, count), name),
        position(shared_times(slots, name, count), name) == position(slots, name),
        shared_times(slots, name, count)[position(slots, name)].asset == slots[position(
            slots,
            name,
        )].asset,
        holders_of(slots, name) + count <= usize::MAX ==> holders_of(
            shared_times(slots, name, count),
            name,
        ) == holders_of(slots, name) + count,
    decreases count,
{
    if count > 0 {
        let earlier = shared_times(slots, name, (count - 1) as nat);
        lemma_loaded_once(slots, name, (count - 1) as nat);
        lemma_share_creates_nothing(earlier, name, name);
    }
}

/// Shares are counted one for one: after `out` more shares went out and
/// `back` shares came back, the number that is out has grown by `out` and
/// shrunk by `back`. So an asset cannot be unloaded while any share handed
/// out has yet to come back, and can be once the last one has. This is so
/// as long as the count has not reached the largest number there is.
pub proof fn lemma_unload_waits_for_holders<T>(
    slots: Seq<Slot<T>>,
    name: Seq<char>,
    out: nat,
    back: nat,
)
    requires
        distinct(slots),
        known(slots, name),
        holders_of(slots, name) + out < usize::MAX,
        back <= holders_of(slots, name) + out,
    ensures
        holders_of(released_times(shared_times(slots, name, out), name, back), name) == holders_of(
            slots,
            name,
        ) + out - back,
    decreases back,
{
    lemma_loaded_once(slots, name, out);
    if back > 0 {
        lemma_unload_waits_for_holders(slots, name, out, (back - 1) as nat);
        lemma_released_times_distinct(shared_times(slots, name, out), name, (back - 1) as nat);
        lemma_release_destroys_nothing(
            released_times(shared_times(slots, name, out), name, (back - 1) as nat),
            name,
            name,
        );
    }
}

/// Names stay distinct however many shares come back.
pub proof fn lemma_released_times_distinct<T>(slots: Seq<Slot<T>>, name: Seq<char>, count: nat)
    requires
        distinct(slots),
    ensures
        distinct(released_times(slots, name, count)),
    decreases count,
{
    if count > 0 {
        lemma_released_times_distinct(slots, name, (count - 1) as nat);
        lemma_release_destroys_nothing(
            released_times(slots, name, (count - 1) as nat),
            name,
            name,
        );
    }
}

fn names_texture(material: &Material, wanted: &String) -> (yes: bool)
    ensures
        yes == lists_texture(material@, wanted@),
{
    let mut k: usize = 0;
    while k < material.textures.len()
        invariant
            k <= material.textures.len(),
            forall|j: int| 0 <= j < k ==> (#[trigger] material@.textures[j]).0 != wanted@,
        decreases material.textures.len() - k,
    {
        if material.textures[k].0 == *wanted {
            assert(material@.textures[k as int].0 == wanted@);
            return true;
        }
        k += 1;
    }
    false
}

fn texture_named(materials: &Vec<Slot<Material>>, name: &str) -> (yes: bool)
    ensures
        yes == texture_in_use(materials@, name@),
{
    let wanted = String::from_str(name);
    let mut i: usize = 0;
    while i < materials.len()
        invariant
            i <= materials.len(),
            wanted@ == name@,
            forall|j: int| 0 <= j < i ==> !lists_texture((#[trigger] materials@[j]).asset@, name@),
        decreases materials.len() - i,
    {
        if names_texture(&materials[i].asset, &wanted) {
            return true;
        }
        i += 1;
    }
    false
}

fn shader_named(materials: &Vec<Slot<Material>>, name: &str) -> (yes: bool)
    ensures
        yes == shader_in_use(materials@, name@),
{
    let wanted = String::from_str(name);
    let mut i: usize = 0;
    while i < materials.len()
        invariant
            i <= materials.len(),
            wanted@ == name@,
            forall|j: int| 0 <= j < i ==> (#[trigger] materials@[j]).asset@.shader != name@,
        decreases materials.len() - i,
    {
        if materials[i].asset.shader == wanted {
            return true;
        }
        i += 1;
    }
    false
}

fn names_differ<T>(slots: &Vec<Slot<T>>) -> (yes: bool)
    ensures
        yes == distinct(slots@),
{
    let mut j: usize = 0;
    while j < slots.len()
        invariant
            j <= slots.len(),
            forall|a: int, b: int|
                #![trigger slots@[a], slots@[b]]
                0 <= a < b < j ==> slots@[a].name@ != slots@[b].name@,
        decreases slots.len() - j,
    {
        let mut i: usize = 0;
        while i < j
            invariant
                i <= j < slots.len(),
                forall|a: int| 0 <= a < i ==> (#[trigger] slots@[a]).name@ != slots@[j as int].name@,
            decreases j - i,
        {
            if slots[i].name == slots[j].name {
                return false;
            }
            i += 1;
        }
        j += 1;
    }
    true
}

/// Materials, textures and shaders, each loaded once and found by name.
#[derive(Debug)]
pub struct AssetPool {
    materials: Vec<Slot<Material>>,
    textures: Vec<Slot<Texture>>,
    shaders: Vec<Slot<Shader>>,
}

impl AssetPool {
    /// The loaded materials, oldest first.
    pub closed spec fn materials(&self) -> Seq<Slot<Material>> {
        self.materials@
    }

    /// The loaded textures, oldest first.
    pub closed spec fn textures(&self) -> Seq<Slot<Texture>> {
        self.textures@
    }

    /// The loaded shaders, oldest first.
    pub closed spec fn shaders(&self) -> Seq<Slot<Shader>> {
        self.shaders@
    }

    /// What holds of every pool: no name is used twice for the same kind of
    /// asset, and every loaded material finds the shader and the textures
    /// it names.
    pub open spec fn wf(&self) -> bool {
        &&& distinct(self.materials())
        &&& distinct(self.textures())
        &&& distinct(self.shaders())
        &&& resolvable(self.materials(), self.textures(), self.shaders())
    }

    /// An empty pool.
    pub fn new() -> (pool: AssetPool)
        ensures
            pool.wf(),
            pool.materials() == Seq::<Slot<Material>>::empty(),
            pool.textures() == Seq::<Slot<Texture>>::empty(),
            pool.shaders() == Seq::<Slot<Shader>>::empty(),
    {
        AssetPool { materials: Vec::new(), textures: Vec::new(), shaders: Vec::new() }
    }

    /// Checks what [`AssetPool::wf`] says: that no name is used twice and
    /// that every material finds what it names. Every pool that the
    /// functions here have built passes.
    pub fn is_sound(&self) -> (yes: bool)
        ensures
            yes == self.wf(),
    {
        if !names_differ(&self.materials) || !names_differ(&self.textures) || !names_differ(
            &self.shaders,
        ) {
            return false;
        }
        let mut i: usize = 0;
        while i < self.materials.len()
            invariant
                i <= self.materials.len(),
                forall|k: int|
                    0 <= k < i ==> complete(
                        (#[trigger] self.materials@[k]).asset@,
                        self.textures@,
                        self.shaders@,
                    ),
            decreases self.materials.len() - i,
        {
            proof {
                lemma_first_missing(self.materials@[i as int].asset@, self.textures@, 0);
            }
            if self.missing_for(&self.materials[i].asset).is_some() {
                return false;
            }
            i += 1;
        }
        true
    }

    /// How many materials are loaded.
    pub fn material_count(&self) -> (count: usize)
        ensures
            count == self.materials().len(),
    {
        self.materials.len()
    }

    /// How many textures are loaded.
    pub fn texture_count(&self) -> (count: usize)
        ensures
            count == self.textures().len(),
    {
        self.textures.len()
    }

    /// How many shaders are loaded.
    pub fn shader_count(&self) -> (count: usize)
        ensures
            count == self.shaders().len(),
    {
        self.shaders.len()
    }

    /// How many shares of the material that goes by `name` are out.
    pub fn material_holders(&self, name: &str) -> (count: usize)
        requires
            self.wf(),
        ensures
            count == holders_of(self.materials(), name@),
    {
        match find(&self.materials, name) {
            Some(i) => {
                proof {
                    lemma_position(self.materials@, name@, i as int);
                }
                self.materials[i].holders
            },
            None => 0,
        }
    }

    /// How many shares of the texture that goes by `name` are out.
    pub fn texture_holders(&self, name: &str) -> (count: usize)
        requires
            self.wf(),
        ensures
            count == holders_of(self.textures(), name@),
    {
        match find(&self.textures, name) {
            Some(i) => {
                proof {
                    lemma_position(self.textures@, name@, i as int);
                }
                self.textures[i].holders
            },
            None => 0,
        }
    }

    /// How many shares of the shader that goes by `name` are out.
    pub fn shader_holders(&self, name: &str) -> (count: usize)
        requires
            self.wf(),
        ensures
            count == holders_of(self.shaders(), name@),
    {
        match find(&self.shaders, name) {
            Some(i) => {
                proof {
                    lemma_position(self.shaders@, name@, i as int);
                }
                self.shaders[i].holders
            },
            None => 0,
        }
    }

    /// Asks for a share of the material that goes by `name`.
    pub fn load_material(&mut self, name: &str) -> (loaded: MaterialLoad)
        requires
            old(self).wf(),
        ensures
            final(self).wf(),
            final(self).materials() == shared(old(self).materials(), name@),
            final(self).textures() == old(self).textures(),
            final(self).shaders() == old(self).shaders(),
            match loaded {
                MaterialLoad::Ready(material) => known(old(self).materials(), name@) && material@
                    == old(self).materials()[position(old(self).materials(), name@)].asset@,
                MaterialLoad::Resolve => !known(old(self).materials(), name@),
            },
    {
        match share(&mut self.materials, name) {
            Some(i) => MaterialLoad::Ready(self.materials[i].asset.duplicate()),
            None => MaterialLoad::Resolve,
        }
    }

    /// What `material` still needs before it can be stored: the first
    /// texture it names that is not loaded; with all of them loaded, its
    /// shader if that is not loaded; otherwise nothing.
    pub fn missing_for(&self, material: &Material) -> (missing: Option<AssetRequest>)
        ensures
            match missing {
                Some(AssetRequest::Texture(request)) => {
                    let k = first_missing(material@, self.textures(), 0);
                    &&& k < material@.textures.len()
                    &&& request.name@ == material@.textures[k].0
                    &&& request.mag_filter == gl_filter(material@.textures[k].1)
                },
                Some(AssetRequest::Shader(request)) => {
                    &&& first_missing(material@, self.textures(), 0) == material@.textures.len()
                    &&& !known(self.shaders(), material@.shader)
                    &&& request.name@ == material@.shader
                },
                None => complete(material@, self.textures(), self.shaders()),
            },
    {
        let mut k: usize = 0;
        while k < material.textures.len()
            invariant
                k <= material.textures.len(),
                first_missing(material@, self.textures(), 0) == first_missing(
                    material@,
                    self.textures(),
                    k as int,
                ),
            decreases material.textures.len() - k,
        {
            let name = material.textures[k].0.as_str();
            assert(name@ == material@.textures[k as int].0);
            if find(&self.textures, name).is_none() {
                let request = TextureRequest {
                    name: material.textures[k].0.clone(),
                    mag_filter: to_gl_filter(&material.textures[k].1),
                };
                return Some(AssetRequest::Texture(request));
            }
            k += 1;
        }
        proof {
            lemma_first_missing(material@, self.textures(), 0);
        }
        if find(&self.shaders, material.shader.as_str()).is_none() {
            Some(AssetRequest::Shader(ShaderRequest { name: material.shader.clone() }))
        } else {
            None
        }
    }

    /// Puts a material whose description was looked up into the pool under
    /// `name`. A material that names something not loaded is turned away.
    /// Where a material already goes by that name, it stays and the new one
    /// is dropped.
    pub fn store_material(&mut self, name: &str, material: Material) -> (stored: Result<
        (),
        AssetError,
    >)
        requires
            old(self).wf(),
        ensures
            final(self).wf(),
            final(self).textures() == old(self).textures(),
            final(self).shaders() == old(self).shaders(),
            !complete(material@, old(self).textures(), old(self).shaders()) ==> stored == Err::<
                (),
                AssetError,
            >(AssetError::NotFound) && final(self).materials() == old(self).materials(),
            complete(material@, old(self).textures(), old(self).shaders()) ==> stored == Ok::<
                (),
                AssetError,
            >(()),
            complete(material@, old(self).textures(), old(self).shaders()) ==> known(
                final(self).materials(),
                name@,
            ),
            complete(material@, old(self).textures(), old(self).shaders()) && known(
                old(self).materials(),
                name@,
            ) ==> final(self).materials() == old(self).materials(),
            complete(material@, old(self).textures(), old(self).shaders()) && !known(
                old(self).materials(),
                name@,
            ) ==> ({
                let after = final(self).materials();
                &&& after.len() == old(self).materials().len() + 1
                &&& after.drop_last() == old(self).materials()
                &&& after.last().name@ == name@
                &&& after.last().asset == material
                &&& after.last().holders == 0
            }),
    {
        proof {
            lemma_first_missing(material@, self.textures(), 0);
        }
        match self.missing_for(&material) {
            Some(_) => Err(AssetError::NotFound),
            None => {
                if find(&self.materials, name).is_none() {
                    let slot = Slot { name: String::from_str(name), asset: material, holders: 0 };
                    proof {
                        lemma_push_adds_name(self.materials@, slot, name@);
                    }
                    self.materials.push(slot);
                    assert(self.materials@.drop_last() =~= old(self).materials@);
                }
                Ok(())
            },
        }
    }

    /// Gives back one share of the material that goes by `name`. Says
    /// whether one was given back: one was out, and the count had not lost
    /// track.
    pub fn release_material(&mut self, name: &str) -> (given_back: bool)
        requires
            old(self).wf(),
        ensures
            final(self).wf(),
            final(self).materials() == released(old(self).materials(), name@),
            final(self).textures() == old(self).textures(),
            final(self).shaders() == old(self).shaders(),
            given_back == (holders_of(old(self).materials(), name@) > 0 && !pinned(
                old(self).materials(),
                name@,
            )),
    {
        release(&mut self.materials, name)
    }

    /// Takes the material that goes by `name` out of the pool, unless a
    /// share of it is out. The textures and the shader it names stay.
    pub fn unload_material(&mut self, name: &str) -> (unloaded: Result<(), AssetError>)
        requires
            old(self).wf(),
        ensures
            final(self).wf(),
            final(self).textures() == old(self).textures(),
            final(self).shaders() == old(self).shaders(),
            holders_of(old(self).materials(), name@) > 0 ==> unloaded == Err::<(), AssetError>(
                AssetError::StillInUse,
            ) && final(self).materials() == old(self).materials(),
            holders_of(old(self).materials(), name@) == 0 ==> unloaded == Ok::<(), AssetError>(())
                && final(self).materials() == removed(old(self).materials(), name@),
    {
        match find(&self.materials, name) {
            Some(i) => {
                proof {
                    lemma_position(self.materials@, name@, i as int);
                    lemma_remove_drops_name(self.materials@, i as int, name@);
                }
                if self.materials[i].holders > 0 {
                    Err(AssetError::StillInUse)
                } else {
                    let _ = self.materials.remove(i);
                    Ok(())
                }
            },
            None => Ok(()),
        }
    }

    /// The material that goes by `name`, if it is loaded. Loads nothing and
    /// counts no share.
    pub fn get_material(&self, name: &str) -> (found: Option<&Material>)
        requires
            self.wf(),
        ensures
            match found {
                Some(material) => known(self.materials(), name@) && *material
                    == self.materials()[position(self.materials(), name@)].asset,
                None => !known(self.materials(), name@),
            },
    {
        match find(&self.materials, name) {
            Some(i) => {
                proof {
                    lemma_position(self.materials@, name@, i as int);
                }
                Some(&self.materials[i].asset)
            },
            None => None,
        }
    }

    /// Asks for a share of the texture that goes by `name`. The filter
    /// matters only to a texture that has yet to be created.
    pub fn load_texture(&mut self, name: &str, filter: &MagnificationFilter) -> (loaded:
        TextureLoad)
        requires
            old(self).wf(),
        ensures
            final(self).wf(),
            final(self).materials() == old(self).materials(),
            final(self).textures() == shared(old(self).textures(), name@),
            final(self).shaders() == old(self).shaders(),
            match loaded {
                TextureLoad::Ready(texture) => known(old(self).textures(), name@) && texture
                    == old(self).textures()[position(old(self).textures(), name@)].asset,
                TextureLoad::Create(request) => !known(old(self).textures(), name@)
                    && request.name@ == name@ && request.mag_filter == gl_filter(*filter),
            },
    {
        let ghost before = self.textures@;
        let found = share(&mut self.textures, name);
        proof {
            assert forall|other: Seq<char>| #[trigger] known(before, other) implies known(
                self.textures@,
                other,
            ) by {
                if known(before, name@) && !pinned(before, name@) {
                    let i = position(before, name@);
                    lemma_update_keeps_names(before, i, self.textures@[i], other);
                }
            }
            lemma_resolvable_grows(
                self.materials@,
                before,
                self.shaders@,
                self.textures@,
                self.shaders@,
            );
        }
        match found {
            Some(i) => TextureLoad::Ready(self.textures[i].asset),
            None => TextureLoad::Create(
                TextureRequest { name: String::from_str(name), mag_filter: to_gl_filter(filter) },
            ),
        }
    }

    /// Puts the texture the driver named `handle` into the pool under
    /// `name`, with no share out, and returns the texture that now goes by
    /// that name. Where one already did, it stays, and the texture that was
    /// handed over is to be deleted.
    pub fn store_texture(&mut self, name: &str, handle: u32) -> (stored: Result<
        Stored<Texture>,
        AssetError,
    >)
        requires
            old(self).wf(),
        ensures
            final(self).wf(),
            final(self).materials() == old(self).materials(),
            final(self).shaders() == old(self).shaders(),
            handle == 0 ==> stored == Err::<Stored<Texture>, AssetError>(
                AssetError::AllocationFailed,
            ) && final(self).textures() == old(self).textures(),
            handle != 0 ==> known(final(self).textures(), name@),
            handle != 0 && known(old(self).textures(), name@) ==> ({
                let kept = old(self).textures()[position(old(self).textures(), name@)].asset;
                &&& stored == Ok::<Stored<Texture>, AssetError>(
                    Stored { kept, discard: discarded(ResourceKind::Texture, kept.name(), handle) },
                )
                &&& final(self).textures() == old(self).textures()
            }),
            handle != 0 && !known(old(self).textures(), name@) ==> ({
                let after = final(self).textures();
                &&& stored is Ok
                &&& stored->Ok_0.kept.name() == handle
                &&& stored->Ok_0.discard == None::<GpuCommand>
                &&& after.len() == old(self).textures().len() + 1
                &&& after.drop_last() == old(self).textures()
                &&& after.last().name@ == name@
                &&& after.last().asset == stored->Ok_0.kept
                &&& after.last().holders == 0
            }),
    {
        match Texture::new(handle) {
            Err(error) => Err(error),
            Ok(texture) => match find(&self.textures, name) {
                Some(i) => {
                    proof {
                        lemma_position(self.textures@, name@, i as int);
                    }
                    let kept = self.textures[i].asset;
                    let discard = if kept.handle() == handle {
                        None
                    } else {
                        Some(texture.cleanup())
                    };
                    Ok(Stored { kept, discard })
                },
                None => {
                    let slot = Slot { name: String::from_str(name), asset: texture, holders: 0 };
                    let ghost before = self.textures@;
                    proof {
                        lemma_push_adds_name(before, slot, name@);
                        assert forall|other: Seq<char>| #[trigger] known(before, other) implies known(
                            before.push(slot),
                            other,
                        ) by {
                            lemma_push_adds_name(before, slot, other);
                        }
                        lemma_resolvable_grows(
                            self.materials@,
                            before,
                            self.shaders@,
                            before.push(slot),
                            self.shaders@,
                        );
                    }
                    self.textures.push(slot);
                    assert(self.textures@.drop_last() =~= before);
                    Ok(Stored { kept: texture, discard: None })
                },
            },
        }
    }

    /// Gives back one share of the texture that goes by `name`. Says
    /// whether one was given back: one was out, and the count had not lost
    /// track.
    pub fn release_texture(&mut self, name: &str) -> (given_back: bool)
        requires
            old(self).wf(),
        ensures
            final(self).wf(),
            final(self).materials() == old(self).materials(),
            final(self).textures() == released(old(self).textures(), name@),
            final(self).shaders() == old(self).shaders(),
            given_back == (holders_of(old(self).textures(), name@) > 0 && !pinned(
                old(self).textures(),
                name@,
            )),
    {
        let ghost before = self.textures@;
        let given_back = release(&mut self.textures, name);
        proof {
            assert forall|other: Seq<char>| #[trigger] known(before, other) implies known(
                self.textures@,
                other,
            ) by {
                if holders_of(before, name@) > 0 && !pinned(before, name@) {
                    let i = position(before, name@);
                    lemma_update_keeps_names(before, i, self.textures@[i], other);
                }
            }
            lemma_resolvable_grows(
                self.materials@,
                before,
                self.shaders@,
                self.textures@,
                self.shaders@,
            );
        }
        given_back
    }

    /// Takes the texture that goes by `name` out of the pool and returns
    /// the command that deletes it, unless a share of it is out or a loaded
    /// material names it. Returns no command where no texture goes by that
    /// name.
    pub fn unload_texture(&mut self, name: &str) -> (unloaded: Result<
        Option<GpuCommand>,
        AssetError,
    >)
        requires
            old(self).wf(),
        ensures
            final(self).wf(),
            final(self).materials() == old(self).materials(),
            final(self).shaders() == old(self).shaders(),
            texture_in_use(old(self).materials(), name@) ==> unloaded == Err::<
                Option<GpuCommand>,
                AssetError,
            >(AssetError::StillInUse),
            match unloaded {
                Ok(None) => !known(old(self).textures(), name@) && final(self).textures() == old(self).textures(),
                Ok(Some(command)) => known(old(self).textures(), name@) && holders_of(
                    old(self).textures(),
                    name@,
                ) == 0 && !texture_in_use(old(self).materials(), name@) && command
                    == (GpuCommand::Delete {
                    kind: ResourceKind::Texture,
                    id: old(self).textures()[position(old(self).textures(), name@)].asset.name(),
                }) && final(self).textures() == removed(old(self).textures(), name@),
                Err(error) => error == AssetError::StillInUse && known(old(self).textures(), name@)
                    && (holders_of(old(self).textures(), name@) > 0 || texture_in_use(
                    old(self).materials(),
                    name@,
                )) && final(self).textures() == old(self).textures(),
            },
    {
        proof {
            lemma_named_is_loaded(self.materials@, self.textures@, self.shaders@, name@);
        }
        match find(&self.textures, name) {
            Some(i) => {
                proof {
                    lemma_position(self.textures@, name@, i as int);
                }
                if self.textures[i].holders > 0 || texture_named(&self.materials, name) {
                    Err(AssetError::StillInUse)
                } else {
                    let ghost before = self.textures@;
                    proof {
                        lemma_remove_drops_name(before, i as int, name@);
                        let after = before.remove(i as int);
                        assert forall|m: int| 0 <= m < self.materials@.len() implies complete(
                            (#[trigger] self.materials@[m]).asset@,
                            after,
                            self.shaders@,
                        ) by {
                            let material = self.materials@[m].asset@;
                            assert(complete(material, before, self.shaders@));
                            assert(!lists_texture(material, name@));
                            assert forall|k: int| 0 <= k < material.textures.len() implies known(
                                after,
                                (#[trigger] material.textures[k]).0,
                            ) by {
                                lemma_remove_drops_name(before, i as int, material.textures[k].0);
                            }
                        }
                    }
                    let slot = self.textures.remove(i);
                    Ok(Some(slot.asset.cleanup()))
                }
            },
            None => Ok(None),
        }
    }

    /// The texture that goes by `name`, if it is loaded. Loads nothing and
    /// counts no share.
    pub fn get_texture(&self, name: &str) -> (found: Option<&Texture>)
        requires
            self.wf(),
        ensures
            match found {
                Some(texture) => known(self.textures(), name@) && *texture
                    == self.textures()[position(self.textures(), name@)].asset,
                None => !known(self.textures(), name@),
            },
    {
        match find(&self.textures, name) {
            Some(i) => {
                proof {
                    lemma_position(self.textures@, name@, i as int);
                }
                Some(&self.textures[i].asset)
            },
            None => None,
        }
    }

    /// Asks for a share of the shader that goes by `name`.
    pub fn load_shader(&mut self, name: &str) -> (loaded: ShaderLoad)
        requires
            old(self).wf(),
        ensures
            final(self).wf(),
            final(self).materials() == old(self).materials(),
            final(self).textures() == old(self).textures(),
            final(self).shaders() == shared(old(self).shaders(), name@),
            match loaded {
                ShaderLoad::Ready(shader) => known(old(self).shaders(), name@) && shader == old(self).shaders()[position(old(self).shaders(), name@)].asset,
                ShaderLoad::Create(request) => !known(old(self).shaders(), name@) && request.name@
                    == name@,
            },
    {
        let ghost before = self.shaders@;
        let found = share(&mut self.shaders, name);
        proof {
            assert forall|other: Seq<char>| #[trigger] known(before, other) implies known(
                self.shaders@,
                other,
            ) by {
                if known(before, name@) && !pinned(before, name@) {
                    let i = position(before, name@);
                    lemma_update_keeps_names(before, i, self.shaders@[i], other);
                }
            }
            lemma_resolvable_grows(
                self.materials@,
                self.textures@,
                before,
                self.textures@,
                self.shaders@,
            );
        }
        match found {
            Some(i) => ShaderLoad::Ready(self.shaders[i].asset),
            None => ShaderLoad::Create(ShaderRequest { name: String::from_str(name) }),
        }
    }

    /// Puts the program the driver named `program` into the pool under
    /// `name`, with no share out, and returns the shader that now goes by
    /// that name. Where one already did, it stays, and the program that was
    /// handed over is to be deleted.
    pub fn store_shader(&mut self, name: &str, program: u32) -> (stored: Result<
        Stored<Shader>,
        AssetError,
    >)
        requires
            old(self).wf(),
        ensures
            final(self).wf(),
            final(self).materials() == old(self).materials(),
            final(self).textures() == old(self).textures(),
            program == 0 ==> stored == Err::<Stored<Shader>, AssetError>(
                AssetError::AllocationFailed,
            ) && final(self).shaders() == old(self).shaders(),
            program != 0 ==> known(final(self).shaders(), name@),
            program != 0 && known(old(self).shaders(), name@) ==> ({
                let kept = old(self).shaders()[position(old(self).shaders(), name@)].asset;
                &&& stored == Ok::<Stored<Shader>, AssetError>(
                    Stored {
                        kept,
                        discard: discarded(ResourceKind::ShaderProgram, kept.name(), program),
                    },
                )
                &&& final(self).shaders() == old(self).shaders()
            }),
            program != 0 && !known(old(self).shaders(), name@) ==> ({
                let after = final(self).shaders();
                &&& stored is Ok
                &&& stored->Ok_0.kept.name() == program
                &&& stored->Ok_0.discard == None::<GpuCommand>
                &&& after.len() == old(self).shaders().len() + 1
                &&& after.drop_last() == old(self).shaders()
                &&& after.last().name@ == name@
                &&& after.last().asset == stored->Ok_0.kept
                &&& after.last().holders == 0
            }),
    {
        match Shader::new(program) {
            Err(error) => Err(error),
            Ok(shader) => match find(&self.shaders, name) {
                Some(i) => {
                    proof {
                        lemma_position(self.shaders@, name@, i as int);
                    }
                    let kept = self.shaders[i].asset;
                    let discard = if kept.program() == program {
                        None
                    } else {
                        Some(shader.cleanup())
                    };
                    Ok(Stored { kept, discard })
                },
                None => {
                    let slot = Slot { name: String::from_str(name), asset: shader, holders: 0 };
                    let ghost before = self.shaders@;
                    proof {
                        lemma_push_adds_name(before, slot, name@);
                        assert forall|other: Seq<char>| #[trigger] known(before, other) implies known(
                            before.push(slot),
                            other,
                        ) by {
                            lemma_push_adds_name(before, slot, other);
                        }
                        lemma_resolvable_grows(
                            self.materials@,
                            self.textures@,
                            before,
                            self.textures@,
                            before.push(slot),
                        );
                    }
                    self.shaders.push(slot);
                    assert(self.shaders@.drop_last() =~= before);
                    Ok(Stored { kept: shader, discard: None })
                },
            },
        }
    }

    /// Gives back one share of the shader that goes by `name`. Says whether
    /// one was given back: one was out, and the count had not lost track.
    pub fn release_shader(&mut self, name: &str) -> (given_back: bool)
        requires
            old(self).wf(),
        ensures
            final(self).wf(),
            final(self).materials() == old(self).materials(),
            final(self).textures() == old(self).textures(),
            final(self).shaders() == released(old(self).shaders(), name@),
            given_back == (holders_of(old(self).shaders(), name@) > 0 && !pinned(
                old(self).shaders(),
                name@,
            )),
    {
        let ghost before = self.shaders@;
        let given_back = release(&mut self.shaders, name);
        proof {
            assert forall|other: Seq<char>| #[trigger] known(before, other) implies known(
                self.shaders@,
                other,
            ) by {
                if holders_of(before, name@) > 0 && !pinned(before, name@) {
                    let i = position(before, name@);
                    lemma_update_keeps_names(before, i, self.shaders@[i], other);
                }
            }
            lemma_resolvable_grows(
                self.materials@,
                self.textures@,
                before,
                self.textures@,
                self.shaders@,
            );
        }
        given_back
    }

    /// Takes the shader that goes by `name` out of the pool and returns the
    /// command that deletes it, unless a share of it is out or a loaded
    /// material names it. Returns no command where no shader goes by that
    /// name.
    pub fn unload_shader(&mut self, name: &str) -> (unloaded: Result<
        Option<GpuCommand>,
        AssetError,
    >)
        requires
            old(self).wf(),
        ensures
            final(self).wf(),
            final(self).materials() == old(self).materials(),
            final(self).textures() == old(self).textures(),
            shader_in_use(old(self).materials(), name@) ==> unloaded == Err::<
                Option<GpuCommand>,
                AssetError,
            >(AssetError::StillInUse),
            match unloaded {
                Ok(None) => !known(old(self).shaders(), name@) && final(self).shaders() == old(self).shaders(),
                Ok(Some(command)) => known(old(self).shaders(), name@) && holders_of(
                    old(self).shaders(),
                    name@,
                ) == 0 && !shader_in_use(old(self).materials(), name@) && command
                    == (GpuCommand::Delete {
                    kind: ResourceKind::ShaderProgram,
                    id: old(self).shaders()[position(old(self).shaders(), name@)].asset.name(),
                }) && final(self).shaders() == removed(old(self).shaders(), name@),
                Err(error) => error == AssetError::StillInUse && known(old(self).shaders(), name@)
                    && (holders_of(old(self).shaders(), name@) > 0 || shader_in_use(
                    old(self).materials(),
                    name@,
                )) && final(self).shaders() == old(self).shaders(),
            },
    {
        proof {
            lemma_named_is_loaded(self.materials@, self.textures@, self.shaders@, name@);
        }
        match find(&self.shaders, name) {
            Some(i) => {
                proof {
                    lemma_position(self.shaders@, name@, i as int);
                }
                if self.shaders[i].holders > 0 || shader_named(&self.materials, name) {
                    Err(AssetError::StillInUse)
                } else {
                    let ghost before = self.shaders@;
                    proof {
                        lemma_remove_drops_name(before, i as int, name@);
                        let after = before.remove(i as int);
                        assert forall|m: int| 0 <= m < self.materials@.len() implies complete(
                            (#[trigger] self.materials@[m]).asset@,
                            self.textures@,
                            after,
                        ) by {
                            let material = self.materials@[m].asset@;
                            assert(complete(material, self.textures@, before));
                            lemma_remove_drops_name(before, i as int, material.shader);
                        }
                    }
                    let slot = self.shaders.remove(i);
                    Ok(Some(slot.asset.cleanup()))
                }
            },
            None => Ok(None),
        }
    }

    /// The shader that goes by `name`, if it is loaded. Loads nothing and
    /// counts no share.
    pub fn get_shader(&self, name: &str) -> (found: Option<&Shader>)
        requires
            self.wf(),
        ensures
            match found {
                Some(shader) => known(self.shaders(), name@) && *shader == self.shaders()[position(
                    self.shaders(),
                    name@,
                )].asset,
                None => !known(self.shaders(), name@),
            },
    {
        match find(&self.shaders, name) {
            Some(i) => {
                proof {
                    lemma_position(self.shaders@, name@, i as int);
                }
                Some(&self.shaders[i].asset)
            },
            None => None,
        }
    }

    /// Empties the pool, whatever shares are out, and returns the commands
    /// that delete every texture and then every shader. For shutdown.
    pub fn unload_all(&mut self) -> (commands: Vec<GpuCommand>)
        ensures
            final(self).wf(),
            final(self).materials() == Seq::<Slot<Material>>::empty(),
            final(self).textures() == Seq::<Slot<Texture>>::empty(),
            final(self).shaders() == Seq::<Slot<Shader>>::empty(),
            commands@ == texture_deletions(old(self).textures()) + shader_deletions(
                old(self).shaders(),
            ),
    {
        let mut commands: Vec<GpuCommand> = Vec::new();
        let mut i: usize = 0;
        while i < self.textures.len()
            invariant
                i <= self.textures.len(),
                *self == *old(self),
                commands@ == texture_deletions(self.textures@.take(i as int)),
            decreases self.textures.len() - i,
        {
            commands.push(self.textures[i].asset.cleanup());
            assert(self.textures@.take(i + 1) =~= self.textures@.take(i as int).push(
                self.textures@[i as int],
            ));
            assert(commands@ =~= texture_deletions(self.textures@.take(i + 1)));
            i += 1;
        }
        assert(self.textures@.take(i as int) =~= self.textures@);
        let mut j: usize = 0;
        while j < self.shaders.len()
            invariant
                j <= self.shaders.len(),
                *self == *old(self),
                commands@ == texture_deletions(self.textures@) + shader_deletions(
                    self.shaders@.take(j as int),
                ),
            decreases self.shaders.len() - j,
        {
            commands.push(self.shaders[j].asset.cleanup());
            assert(self.shaders@.take(j + 1) =~= self.shaders@.take(j as int).push(
                self.shaders@[j as int],
            ));
            assert(commands@ =~= texture_deletions(self.textures@) + shader_deletions(
                self.shaders@.take(j + 1),
            ));
            j += 1;
        }
        assert(self.shaders@.take(j as int) =~= self.shaders@);
        self.materials.clear();
        self.textures.clear();
        self.shaders.clear();
        commands
    }
}

impl Default for AssetPool {
    fn default() -> (pool: AssetPool)
        ensures
            pool.wf(),
            pool.materials() == Seq::<Slot<Material>>::empty(),
            pool.textures() == Seq::<Slot<Texture>>::empty(),
            pool.shaders() == Seq::<Slot<Shader>>::empty(),
    {
        AssetPool::new()
    }
}

} // verus!
