//! The resource cache: meshes, textures and materials by handle, and the
//! depth target that all nodes of a frame share.
//!
//! A resource is loaded at most once. Whoever asks first decides what a
//! handle stands for; nothing is ever evicted or replaced.

use vstd::prelude::*;
use crate::device::{Device, RequestView};
use crate::render_pass::{PassOp, RenderPass};
use crate::types::instance_buffer::InstanceBuffer;
use crate::types::material::Material;
use crate::types::mesh::{
    first_fault, first_fault_of, mesh_requests, mesh_submeshes, models_view, Mesh, MeshError,
    MeshView, ObjModel, ObjModelView,
};
use crate::types::texture::{
    depth_texture, depth_texture_request, image_texture, image_texture_requests, ImageData,
    ImageDataView, Texture, TextureSize,
};
use crate::types::vertex::Instance;

verus! {

/// The kind of a cached resource.
#[derive(Clone, Copy, Debug, PartialEq, Eq, Structural, Hash)]
pub enum ResourceType {
    Mesh,
    Texture,
    Material,
}

/// What a handle stands for: an id and a kind. Two keys are the same only
/// if both parts are.
pub struct ResourceKey {
    pub id: Seq<char>,
    pub resource_type: ResourceType,
}

/// The identity of a cached resource.
#[derive(Debug, PartialEq, Eq, Hash)]
pub struct ResourceHandle {
    id: String,
    resource_type: ResourceType,
}

impl View for ResourceHandle {
    type V = ResourceKey;

    closed spec fn view(&self) -> ResourceKey {
        ResourceKey { id: self.id@, resource_type: self.resource_type }
    }
}

impl Clone for ResourceHandle {
    fn clone(&self) -> (handle: Self)
        ensures
            handle@ == self@,
    {
        ResourceHandle { id: self.id.clone(), resource_type: self.resource_type }
    }
}

impl ResourceHandle {
    pub fn new(id: String, resource_type: ResourceType) -> (handle: Self)
        ensures
            handle@ == (ResourceKey { id: id@, resource_type }),
    {
        ResourceHandle { id, resource_type }
    }

    pub fn get_id(&self) -> (id: &String)
        ensures
            id@ == self@.id,
    {
        &self.id
    }

    pub fn get_type(&self) -> (resource_type: &ResourceType)
        ensures
            *resource_type == self@.resource_type,
    {
        &self.resource_type
    }

    /// Whether two handles stand for the same resource.
    pub fn same(&self, other: &ResourceHandle) -> (same: bool)
        ensures
            same == (self@ == other@),
    {
        self.resource_type == other.resource_type && self.id == other.id
    }
}

/// The keys of a run of handles.
pub open spec fn keys_view(handles: Seq<ResourceHandle>) -> Seq<ResourceKey> {
    handles.map_values(|h: ResourceHandle| h@)
}

/// No key occurs twice.
pub open spec fn distinct(keys: Seq<ResourceKey>) -> bool {
    forall|i: int, j: int| 0 <= i < j < keys.len() ==> keys[i] != keys[j]
}

/// A place at which `key` stands in `keys`.
pub open spec fn position(keys: Seq<ResourceKey>, key: ResourceKey) -> int {
    choose|i: int| 0 <= i < keys.len() && keys[i] == key
}

/// The map that takes each key to the value at the key's place.
pub open spec fn table<V>(keys: Seq<ResourceKey>, values: Seq<V>) -> Map<ResourceKey, V> {
    Map::new(|k: ResourceKey| keys.contains(k), |k: ResourceKey| values[position(keys, k)])
}

proof fn lemma_position(keys: Seq<ResourceKey>, i: int)
    requires
        distinct(keys),
        0 <= i < keys.len(),
    ensures
        position(keys, keys[i]) == i,
        keys.contains(keys[i]),
{
}

proof fn lemma_table_push<V>(keys: Seq<ResourceKey>, values: Seq<V>, key: ResourceKey, value: V)
    requires
        distinct(keys),
        keys.len() == values.len(),
        !keys.contains(key),
    ensures
        distinct(keys.push(key)),
        table(keys.push(key), values.push(value)) == table(keys, values).insert(key, value),
{
    let keys2 = keys.push(key);
    let values2 = values.push(value);
    assert(distinct(keys2)) by {
        assert forall|i: int, j: int| 0 <= i < j < keys2.len() implies keys2[i] != keys2[j] by {
            if j == keys.len() {
                assert(keys.contains(keys[i]));
            }
        }
    }
    assert forall|k: ResourceKey| keys2.contains(k) <==> (keys.contains(k) || k == key) by {
        if keys.contains(k) {
            let i = choose|i: int| 0 <= i < keys.len() && keys[i] == k;
            assert(keys2[i] == k);
        }
        if k == key {
            assert(keys2[keys.len() as int] == k);
        }
    }
    assert forall|k: ResourceKey| keys2.contains(k) implies #[trigger] table(keys2, values2)[k]
        == table(keys, values).insert(key, value)[k] by {
        let p = position(keys2, k);
        lemma_position(keys2, p);
        if k == key {
            assert(keys2[keys.len() as int] == k);
            lemma_position(keys2, keys.len() as int);
        } else {
            let i = position(keys, k);
            assert(keys2[i] == k);
            lemma_position(keys2, i);
        }
    }
    assert(table(keys2, values2) =~= table(keys, values).insert(key, value));
}

proof fn lemma_table_update<V>(keys: Seq<ResourceKey>, values: Seq<V>, i: int, value: V)
    requires
        distinct(keys),
        keys.len() == values.len(),
        0 <= i < keys.len(),
    ensures
        table(keys, values.update(i, value)) == table(keys, values).insert(keys[i], value),
{
    lemma_position(keys, i);
    assert(table(keys, values.update(i, value)) =~= table(keys, values).insert(keys[i], value));
}

/// Values by handle, every handle at most once.
pub struct Registry<V> {
    keys: Vec<ResourceHandle>,
    values: Vec<V>,
}

impl<V> View for Registry<V> {
    type V = Map<ResourceKey, V>;

    closed spec fn view(&self) -> Map<ResourceKey, V> {
        table(keys_view(self.keys@), self.values@)
    }
}

impl<V> Registry<V> {
    #[verifier::type_invariant]
    spec fn well_formed(&self) -> bool {
        &&& self.keys@.len() == self.values@.len()
        &&& distinct(keys_view(self.keys@))
    }

    /// A registry that holds nothing.
    pub fn new() -> (registry: Self)
        ensures
            registry@ == Map::<ResourceKey, V>::empty(),
    {
        let registry = Registry { keys: Vec::new(), values: Vec::new() };
        assert(registry@ =~= Map::<ResourceKey, V>::empty());
        registry
    }

    fn find(&self, key: &ResourceHandle) -> (place: Option<usize>)
        ensures
            place is Some <==> self@.dom().contains(key@),
            place matches Some(i) ==> {
                &&& i < self.keys@.len()
                &&& self.keys@.len() == self.values@.len()
                &&& self.keys@[i as int]@ == key@
                &&& self@[key@] == self.values@[i as int]
            },
    {
        proof {
            use_type_invariant(self);
        }
        let ghost keys = keys_view(self.keys@);
        let mut i: usize = 0;
        while i < self.keys.len()
            invariant
                i <= self.keys@.len(),
                self.keys@.len() == self.values@.len(),
                keys == keys_view(self.keys@),
                distinct(keys),
                forall|j: int| 0 <= j < i ==> keys[j] != key@,
            decreases self.keys@.len() - i,
        {
            if self.keys[i].same(key) {
                proof {
                    assert(keys[i as int] == key@);
                    lemma_position(keys, i as int);
                }
                return Some(i);
            }
            i += 1;
        }
        None
    }

    /// Whether something is registered under `key`.
    pub fn contains_key(&self, key: &ResourceHandle) -> (found: bool)
        ensures
            found == self@.dom().contains(key@),
    {
        self.find(key).is_some()
    }

    /// What is registered under `key`.
    pub fn get(&self, key: &ResourceHandle) -> (value: Option<&V>)
        ensures
            value is Some <==> self@.dom().contains(key@),
            value matches Some(v) ==> *v == self@[key@],
    {
        match self.find(key) {
            Some(i) => Some(&self.values[i]),
            None => None,
        }
    }

    /// What is registered under `key`, to be changed in place.
    pub fn get_mut(&mut self, key: &ResourceHandle) -> (value: Option<&mut V>)
        ensures
            value is Some <==> old(self)@.dom().contains(key@),
            value matches Some(v) ==> {
                &&& *v == old(self)@[key@]
                &&& final(self)@ == old(self)@.insert(key@, *final(v))
            },
            value is None ==> final(self)@ == old(self)@,
    {
        match self.find(key) {
            Some(i) => {
                proof {
                    use_type_invariant(&*self);
                }
                let ghost keys = keys_view(self.keys@);
                let ghost values = self.values@;
                let slot = &mut self.values[i];
                proof {
                    lemma_table_update(keys, values, i as int, *final(slot));
                }
                Some(slot)
            },
            None => None,
        }
    }

    /// Registers `value` under `key`, in place of what was there.
    pub fn insert(&mut self, key: ResourceHandle, value: V)
        ensures
            final(self)@ == old(self)@.insert(key@, value),
    {
        proof {
            use_type_invariant(&*self);
        }
        let ghost keys = keys_view(self.keys@);
        let ghost values = self.values@;
        let place = self.find(&key);
        let mut taken = Registry { keys: Vec::new(), values: Vec::new() };
        core::mem::swap(self, &mut taken);
        let Registry { keys: mut handles, values: mut held } = taken;
        match place {
            Some(i) => {
                held.set(i, value);
                proof {
                    lemma_table_update(keys, values, i as int, value);
                }
            },
            None => {
                held.push(value);
                handles.push(key);
                proof {
                    lemma_table_push(keys, values, key@, value);
                    assert(keys_view(handles@) =~= keys.push(key@));
                }
            },
        }
        *self = Registry { keys: handles, values: held };
    }
}

/// Why a resource could not be loaded.
#[derive(Clone, Copy, Debug, PartialEq, Eq, Structural)]
pub enum LoadError {
    /// The file could not be read, or is not of the kind asked for.
    Unavailable,
    /// The model file holds a model that cannot be uploaded.
    BadMesh(MeshError),
    /// The image has no texels, or its bytes do not match its size.
    BadImage,
}

/// The resource cache.
pub struct ResourceManager {
    meshes: Registry<Mesh>,
    textures: Registry<Texture>,
    materials: Registry<Material>,
    depth_texture: Option<Texture>,
}

pub struct ResourceManagerView {
    pub meshes: Map<ResourceKey, MeshView>,
    pub textures: Map<ResourceKey, Texture>,
    pub materials: Map<ResourceKey, Material>,
    pub depth_texture: Option<Texture>,
}

impl View for ResourceManager {
    type V = ResourceManagerView;

    closed spec fn view(&self) -> ResourceManagerView {
        ResourceManagerView {
            meshes: self.meshes@.map_values(|m: Mesh| m@),
            textures: self.textures@,
            materials: self.materials@,
            depth_texture: self.depth_texture,
        }
    }
}

/// The mesh that uploading `models` makes when the first request is number `at`.
pub open spec fn loaded_mesh(models: Seq<ObjModelView>, at: int) -> MeshView {
    MeshView { submeshes: mesh_submeshes(models, at), instance_buffer: None }
}

impl ResourceManagerView {
    /// Why loading a mesh under `key` fails, if it does. A cached mesh never
    /// fails; otherwise the file must have been read and all its models must be well formed.
    pub open spec fn mesh_load_error(
        self,
        key: ResourceKey,
        models: Option<Seq<ObjModelView>>,
    ) -> Option<LoadError> {
        if self.meshes.dom().contains(key) {
            None
        } else {
            match models {
                None => Some(LoadError::Unavailable),
                Some(models) => match first_fault_of(models) {
                    Some(error) => Some(LoadError::BadMesh(error)),
                    None => None,
                },
            }
        }
    }

    /// Whether loading a mesh under `key` uploads anything.
    pub open spec fn mesh_load_uploads(
        self,
        key: ResourceKey,
        models: Option<Seq<ObjModelView>>,
    ) -> bool {
        !self.meshes.dom().contains(key) && self.mesh_load_error(key, models) is None
    }

    /// What loading a mesh under `key` asks of the device.
    pub open spec fn mesh_load_requests(
        self,
        key: ResourceKey,
        models: Option<Seq<ObjModelView>>,
    ) -> Seq<RequestView> {
        if self.mesh_load_uploads(key, models) {
            mesh_requests(models->0, models->0.len() as int)
        } else {
            Seq::empty()
        }
    }

    /// The cache after a mesh was loaded under `key`, by requests from number `at` on.
    pub open spec fn after_mesh_load(
        self,
        key: ResourceKey,
        models: Option<Seq<ObjModelView>>,
        at: int,
    ) -> ResourceManagerView {
        if self.mesh_load_uploads(key, models) {
            ResourceManagerView {
                meshes: self.meshes.insert(key, loaded_mesh(models->0, at)),
                ..self
            }
        } else {
            self
        }
    }

    /// Why loading a texture under `key` fails, if it does.
    pub open spec fn texture_load_error(
        self,
        key: ResourceKey,
        image: Option<ImageDataView>,
    ) -> Option<LoadError> {
        if self.textures.dom().contains(key) {
            None
        } else {
            match image {
                None => Some(LoadError::Unavailable),
                Some(image) => if image.well_formed() {
                    None
                } else {
                    Some(LoadError::BadImage)
                },
            }
        }
    }

    /// Whether loading a texture under `key` uploads anything.
    pub open spec fn texture_load_uploads(
        self,
        key: ResourceKey,
        image: Option<ImageDataView>,
    ) -> bool {
        !self.textures.dom().contains(key) && self.texture_load_error(key, image) is None
    }

    /// What loading a texture under `key` asks of the device, when the
    /// first request is number `at`.
    pub open spec fn texture_load_requests(
        self,
        key: ResourceKey,
        image: Option<ImageDataView>,
        at: nat,
    ) -> Seq<RequestView> {
        if self.texture_load_uploads(key, image) {
            image_texture_requests(image->0, at)
        } else {
            Seq::empty()
        }
    }

    /// The cache after a texture was loaded under `key`, by requests from number `at` on.
    pub open spec fn after_texture_load(
        self,
        key: ResourceKey,
        image: Option<ImageDataView>,
        at: nat,
    ) -> ResourceManagerView {
        if self.texture_load_uploads(key, image) {
            ResourceManagerView {
                textures: self.textures.insert(key, image_texture(image->0, at)),
                ..self
            }
        } else {
            self
        }
    }

    /// The cached depth target fits a surface of the given size.
    pub open spec fn depth_fits(self, width: u32, height: u32) -> bool {
        self.depth_texture matches Some(texture) && texture.size == (TextureSize { width, height })
    }

    /// What fetching the depth target for a surface of the given size asks of the device.
    pub open spec fn depth_requests(self, width: u32, height: u32) -> Seq<RequestView> {
        if self.depth_fits(width, height) {
            Seq::empty()
        } else {
            seq![depth_texture_request(width, height)]
        }
    }

    /// The depth target for a surface of the given size: the cached one if
    /// it fits, else the one that request number `at` makes.
    pub open spec fn depth_for(self, width: u32, height: u32, at: nat) -> Texture {
        if self.depth_fits(width, height) {
            self.depth_texture->0
        } else {
            depth_texture(width, height, at)
        }
    }

    /// The cache after the depth target was fetched for a surface of the given size.
    pub open spec fn after_depth_load(self, width: u32, height: u32, at: nat) -> ResourceManagerView {
        ResourceManagerView { depth_texture: Some(self.depth_for(width, height, at)), ..self }
    }

    /// The cache after `material` was offered under `key`: the first one
    /// offered under a key stays.
    pub open spec fn after_material_load(self, key: ResourceKey, material: Material) -> ResourceManagerView {
        if self.materials.dom().contains(key) {
            self
        } else {
            ResourceManagerView { materials: self.materials.insert(key, material), ..self }
        }
    }
}

/// A mesh is loaded once. After a load under `key` that did not fail, the
/// mesh is cached, and another load under `key`, from whatever the file
/// then holds, does not fail, asks nothing of the device and leaves the
/// cache, and so the mesh, as it is.
pub proof fn lemma_mesh_loaded_once(
    cache: ResourceManagerView,
    key: ResourceKey,
    models: Option<Seq<ObjModelView>>,
    at: int,
    again: Option<Seq<ObjModelView>>,
    at_again: int,
)
    requires
        cache.mesh_load_error(key, models) is None,
    ensures
        ({
            let loaded = cache.after_mesh_load(key, models, at);
            &&& loaded.meshes.dom().contains(key)
            &&& loaded.mesh_load_error(key, again) is None
            &&& loaded.mesh_load_requests(key, again) == Seq::<RequestView>::empty()
            &&& loaded.after_mesh_load(key, again, at_again) == loaded
        }),
{
}

/// A texture is loaded once: what `lemma_mesh_loaded_once` says of meshes holds of textures.
pub proof fn lemma_texture_loaded_once(
    cache: ResourceManagerView,
    key: ResourceKey,
    image: Option<ImageDataView>,
    at: nat,
    again: Option<ImageDataView>,
    at_again: nat,
)
    requires
        cache.texture_load_error(key, image) is None,
    ensures
        ({
            let loaded = cache.after_texture_load(key, image, at);
            &&& loaded.textures.dom().contains(key)
            &&& loaded.texture_load_error(key, again) is None
            &&& loaded.texture_load_requests(key, again, at_again) == Seq::<RequestView>::empty()
            &&& loaded.after_texture_load(key, again, at_again) == loaded
        }),
{
}

/// Handles of different kinds never stand for the same resource, even with the same id.
pub proof fn lemma_kind_tells_apart(id: Seq<char>, first: ResourceType, second: ResourceType)
    requires
        first != second,
    ensures
        (ResourceKey { id, resource_type: first }) != (ResourceKey { id, resource_type: second }),
{
}

/// The depth target is reused as long as the surface keeps its size, and
/// made anew when the size changes. After the target was fetched for a
/// surface of `width` by `height`: fetching it again for that size hands
/// out the same target and asks nothing of the device; fetching it for
/// another size asks for one new target, which has the new size and is
/// the object of that new request.
pub proof fn lemma_depth_target_reuse(
    cache: ResourceManagerView,
    width: u32,
    height: u32,
    at: nat,
    new_width: u32,
    new_height: u32,
    at_again: nat,
)
    ensures
        ({
            let fetched = cache.after_depth_load(width, height, at);
            let target = cache.depth_for(width, height, at);
            &&& fetched.depth_texture == Some(target)
            &&& target.size == (TextureSize { width, height })
            &&& fetched.depth_for(width, height, at_again) == target
            &&& fetched.depth_requests(width, height) == Seq::<RequestView>::empty()
            &&& fetched.after_depth_load(width, height, at_again) == fetched
            &&& (new_width != width || new_height != height) ==> {
                &&& fetched.depth_requests(new_width, new_height) == seq![
                    depth_texture_request(new_width, new_height),
                ]
                &&& fetched.depth_for(new_width, new_height, at_again).size == (TextureSize {
                    width: new_width,
                    height: new_height,
                })
                &&& fetched.depth_for(new_width, new_height, at_again).texture.index
                    == at_again as usize
            }
        }),
{
}

impl ResourceManager {
    /// An empty cache.
    pub fn new() -> (manager: ResourceManager)
        ensures
            manager@.meshes == Map::<ResourceKey, MeshView>::empty(),
            manager@.textures == Map::<ResourceKey, Texture>::empty(),
            manager@.materials == Map::<ResourceKey, Material>::empty(),
            manager@.depth_texture is None,
    {
        let manager = ResourceManager {
            meshes: Registry::new(),
            textures: Registry::new(),
            materials: Registry::new(),
            depth_texture: None,
        };
        assert(manager@.meshes =~= Map::<ResourceKey, MeshView>::empty());
        manager
    }

    /// Why loading a mesh under `id` from `models` would fail, if it would.
    /// `models` is what the model file holds, or `None` if it could not be read.
    pub fn mesh_load_error(&self, id: &ResourceHandle, models: Option<&Vec<ObjModel>>) -> (error:
        Option<LoadError>)
        ensures
            error == self@.mesh_load_error(id@, models_option_view(models)),
    {
        if self.meshes.contains_key(id) {
            return None;
        }
        match models {
            None => Some(LoadError::Unavailable),
            Some(models) => match first_fault(models) {
                Some(error) => Some(LoadError::BadMesh(error)),
                None => None,
            },
        }
    }

    /// Makes sure a mesh is cached under `id` and hands it out. A cached
    /// mesh is handed out as it is: `models` is not looked at and nothing
    /// is asked of the device. Otherwise the models are uploaded, unless the file could not
    /// be read or a model is malformed; then nothing changes.
    pub fn load_mesh(
        &mut self,
        device: &mut Device,
        id: ResourceHandle,
        models: Option<&Vec<ObjModel>>,
    ) -> (r: Result<&Mesh, LoadError>)
        ensures
            match old(self)@.mesh_load_error(id@, models_option_view(models)) {
                Some(error) => r == Err::<&Mesh, LoadError>(error),
                None => r matches Ok(mesh) && mesh@ == final(self)@.meshes[id@],
            },
            final(self)@ == old(self)@.after_mesh_load(
                id@,
                models_option_view(models),
                old(device)@.len() as int,
            ),
            final(device)@ == old(device)@ + old(self)@.mesh_load_requests(
                id@,
                models_option_view(models),
            ),
            r is Ok ==> final(self)@.meshes.dom().contains(id@),
    {
        let ghost source = models_option_view(models);
        if !self.meshes.contains_key(&id) {
            match models {
                None => {
                    assert(device@ =~= old(device)@ + Seq::<RequestView>::empty());
                    return Err(LoadError::Unavailable);
                },
                Some(models) => {
                    match Mesh::load_from_file(device, models) {
                        Err(error) => {
                            assert(device@ =~= old(device)@ + Seq::<RequestView>::empty());
                            return Err(LoadError::BadMesh(error));
                        },
                        Ok(mesh) => {
                            let ghost made = mesh@;
                            assert(made =~= loaded_mesh(source->0, old(device)@.len() as int));
                            let ghost before = self.meshes@;
                            self.meshes.insert(id.clone(), mesh);
                            assert(self.meshes@.map_values(|m: Mesh| m@) =~= before.map_values(
                                |m: Mesh| m@,
                            ).insert(id@, made));
                        },
                    }
                },
            }
        } else {
            assert(device@ =~= old(device)@ + Seq::<RequestView>::empty());
        }
        match self.meshes.get(&id) {
            Some(mesh) => Ok(mesh),
            None => Err(LoadError::Unavailable),
        }
    }

    /// Why loading a texture under `id` from `image` would fail, if it would.
    /// `image` is the decoded image file, or `None` if it could not be read.
    pub fn texture_load_error(&self, id: &ResourceHandle, image: Option<&ImageData>) -> (error:
        Option<LoadError>)
        ensures
            error == self@.texture_load_error(id@, image_option_view(image)),
    {
        if self.textures.contains_key(id) {
            return None;
        }
        match image {
            None => Some(LoadError::Unavailable),
            Some(image) => if Texture::accepts(image) {
                None
            } else {
                Some(LoadError::BadImage)
            },
        }
    }

    /// Makes sure a texture is cached under `id` and hands it out. A cached
    /// texture is handed out as it is: `image` is not looked at and
    /// nothing is asked of the device. Otherwise the image is uploaded, unless the file
    /// could not be read or the image is malformed; then nothing changes.
    pub fn load_texture(
        &mut self,
        device: &mut Device,
        id: ResourceHandle,
        image: Option<&ImageData>,
    ) -> (r: Result<&Texture, LoadError>)
        ensures
            match old(self)@.texture_load_error(id@, image_option_view(image)) {
                Some(error) => r == Err::<&Texture, LoadError>(error),
                None => r matches Ok(texture) && *texture == final(self)@.textures[id@],
            },
            final(self)@ == old(self)@.after_texture_load(
                id@,
                image_option_view(image),
                old(device)@.len(),
            ),
            final(device)@ == old(device)@ + old(self)@.texture_load_requests(
                id@,
                image_option_view(image),
                old(device)@.len(),
            ),
            r is Ok ==> final(self)@.textures.dom().contains(id@),
    {
        if !self.textures.contains_key(&id) {
            match image {
                None => {
                    assert(device@ =~= old(device)@ + Seq::<RequestView>::empty());
                    return Err(LoadError::Unavailable);
                },
                Some(image) => {
                    match Texture::from_image(device, image) {
                        None => {
                            assert(device@ =~= old(device)@ + Seq::<RequestView>::empty());
                            return Err(LoadError::BadImage);
                        },
                        Some(texture) => {
                            self.textures.insert(id.clone(), texture);
                        },
                    }
                },
            }
        } else {
            assert(device@ =~= old(device)@ + Seq::<RequestView>::empty());
        }
        match self.textures.get(&id) {
            Some(texture) => Ok(texture),
            None => Err(LoadError::Unavailable),
        }
    }

    /// The depth target for a surface of the given size. The cached target
    /// is handed out if it has that size; else a new one is made and cached in its place.
    pub fn load_depth_texture(&mut self, device: &mut Device, width: u32, height: u32) -> (texture:
        Texture)
        ensures
            texture == old(self)@.depth_for(width, height, old(device)@.len()),
            final(self)@ == old(self)@.after_depth_load(width, height, old(device)@.len()),
            final(device)@ == old(device)@ + old(self)@.depth_requests(width, height),
    {
        match self.depth_texture {
            Some(texture) => {
                let size = texture.get_texture_size();
                let is_width = size.width == width;
                let is_height = size.height == height;
                if !is_width || !is_height {
                    let mut resized = texture;
                    resized.resize_screen_texture(device, width, height);
                    self.depth_texture = Some(resized);
                    assert(device@ =~= old(device)@ + old(self)@.depth_requests(width, height));
                    return resized;
                }
                assert(device@ =~= old(device)@ + old(self)@.depth_requests(width, height));
                assert(self@.depth_texture == Some(texture));
                texture
            },
            None => {
                let texture = Texture::create_depth_texture(device, width, height);
                self.depth_texture = Some(texture);
                assert(device@ =~= old(device)@ + old(self)@.depth_requests(width, height));
                texture
            },
        }
    }

    /// Makes sure a material is cached under `id` and hands it out. If
    /// one is cached already it stays, and `material` is dropped.
    pub fn load_material(&mut self, id: ResourceHandle, material: Material) -> (r: Option<&Material>)
        ensures
            final(self)@ == old(self)@.after_material_load(id@, material),
            r matches Some(cached) && *cached == final(self)@.materials[id@],
            final(self)@.materials.dom().contains(id@),
    {
        if !self.materials.contains_key(&id) {
            self.materials.insert(id.clone(), material);
        }
        self.materials.get(&id)
    }

    /// Makes a buffer for `instances`. Nothing is cached: every call makes another buffer.
    pub fn build_instance_buffer(&self, device: &mut Device, instances: &Vec<Instance>) -> (buffer:
        InstanceBuffer)
        requires
            instances@.len() <= u32::MAX,
        ensures
            final(device)@ == old(device)@ + crate::types::instance_buffer::instance_buffer_requests(
                instances@,
                old(device)@.len(),
            ),
            buffer@ == crate::types::instance_buffer::InstanceBufferView::made_at(
                instances@,
                old(device)@.len(),
            ),
    {
        InstanceBuffer::new(device, instances.clone())
    }

    pub fn get_mesh(&self, id: &ResourceHandle) -> (mesh: Option<&Mesh>)
        ensures
            mesh is Some <==> self@.meshes.dom().contains(id@),
            mesh matches Some(m) ==> m@ == self@.meshes[id@],
    {
        self.meshes.get(id)
    }

    pub fn get_mesh_mut(&mut self, id: &ResourceHandle) -> (mesh: Option<&mut Mesh>)
        ensures
            mesh is Some <==> old(self)@.meshes.dom().contains(id@),
            mesh matches Some(m) ==> {
                &&& m@ == old(self)@.meshes[id@]
                &&& final(self)@ == (ResourceManagerView {
                    meshes: old(self)@.meshes.insert(id@, final(m)@),
                    ..old(self)@
                })
            },
            mesh is None ==> final(self)@ == old(self)@,
    {
        let ghost before = self.meshes@;
        match self.meshes.get_mut(id) {
            Some(m) => {
                proof {
                    assert(before.insert(id@, *final(m)).map_values(|m: Mesh| m@)
                        =~= before.map_values(|m: Mesh| m@).insert(id@, final(m)@));
                }
                Some(m)
            },
            None => None,
        }
    }

    pub fn get_texture(&self, id: &ResourceHandle) -> (texture: Option<&Texture>)
        ensures
            texture is Some <==> self@.textures.dom().contains(id@),
            texture matches Some(t) ==> *t == self@.textures[id@],
    {
        self.textures.get(id)
    }

    pub fn get_texture_mut(&mut self, id: &ResourceHandle) -> (texture: Option<&mut Texture>)
        ensures
            texture is Some <==> old(self)@.textures.dom().contains(id@),
            texture matches Some(t) ==> {
                &&& *t == old(self)@.textures[id@]
                &&& final(self)@ == (ResourceManagerView {
                    textures: old(self)@.textures.insert(id@, *final(t)),
                    ..old(self)@
                })
            },
            texture is None ==> final(self)@ == old(self)@,
    {
        self.textures.get_mut(id)
    }

    pub fn get_material(&self, id: &ResourceHandle) -> (material: Option<&Material>)
        ensures
            material is Some <==> self@.materials.dom().contains(id@),
            material matches Some(m) ==> *m == self@.materials[id@],
    {
        self.materials.get(id)
    }

    pub fn get_material_mut(&mut self, id: &ResourceHandle) -> (material: Option<&mut Material>)
        ensures
            material is Some <==> old(self)@.materials.dom().contains(id@),
            material matches Some(m) ==> {
                &&& *m == old(self)@.materials[id@]
                &&& final(self)@ == (ResourceManagerView {
                    materials: old(self)@.materials.insert(id@, *final(m)),
                    ..old(self)@
                })
            },
            material is None ==> final(self)@ == old(self)@,
    {
        self.materials.get_mut(id)
    }

    /// What binding the pipeline of the material under `key` records:
    /// nothing if there is no such material or it has no pipeline.
    pub open spec fn material_ops(view: ResourceManagerView, key: ResourceKey) -> Seq<PassOp> {
        if view.materials.dom().contains(key) {
            view.materials[key].pipeline_ops()
        } else {
            Seq::empty()
        }
    }

    /// Binds the pipeline of the material cached under `material`, if there is one.
    pub fn render_material(&self, material: &ResourceHandle, render_pass: &mut RenderPass)
        ensures
            final(render_pass)@ == old(render_pass)@.plus(Self::material_ops(self@, material@)),
    {
        match self.materials.get(material) {
            Some(mat) => {
                mat.bind_pipeline(render_pass);
            },
            None => {
                proof {
                    crate::render_pass::lemma_plus(old(render_pass)@, Seq::empty(), Seq::empty());
                }
            },
        }
    }
}

/// The views of the models of a file that may not have been read.
pub open spec fn models_option_view(models: Option<&Vec<ObjModel>>) -> Option<Seq<ObjModelView>> {
    match models {
        Some(models) => Some(models_view(models@)),
        None => None,
    }
}

/// The view of an image that may not have been read.
pub open spec fn image_option_view(image: Option<&ImageData>) -> Option<ImageDataView> {
    match image {
        Some(image) => Some(image@),
        None => None,
    }
}

} // verus!
