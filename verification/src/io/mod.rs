//! The description of a puppet: what a loader hands to the engine.

pub mod automation;
pub mod container;
pub mod metadata;
pub mod node;
pub mod param;
pub mod physics;

pub use metadata::Metadata;
pub use param::InterpolateMode;
pub use param::Param;
pub use param::ParamBinding;
pub use param::ParamValue;
pub use physics::Physics;

use automation::Automation;
use automation::AutomationView;
use metadata::MetadataView;
use node::Node;
use node::NodeView;
use param::ParamView;
use physics::PhysicsView;
use vstd::prelude::*;

verus! {

/// A vector or point in 2D space, as two single-precision bit patterns.
pub type Vec2 = [u32; 2];

/// A vector or point in 3D space, as three single-precision bit patterns.
pub type Vec3 = [u32; 3];

/// The characters of a text that may be absent.
pub open spec fn text_of(text: Option<String>) -> Option<Seq<char>> {
    match text {
        Some(text) => Some(text@),
        None => None,
    }
}

/// A unique ID attached to some model entity.
#[derive(Debug, Clone, Copy, PartialEq, Eq, Hash, Structural)]
pub struct Uuid {
    raw: u64,
}

impl View for Uuid {
    type V = u64;

    closed spec fn view(&self) -> u64 {
        self.raw
    }
}

impl DeepView for Uuid {
    type V = u64;

    open spec fn deep_view(&self) -> u64 {
        self@
    }
}

impl Uuid {
    /// The ID with the given number.
    pub fn new(raw: u64) -> (id: Uuid)
        ensures
            id@ == raw,
    {
        Uuid { raw }
    }

    /// The number of this ID.
    pub fn raw(&self) -> (raw: u64)
        ensures
            raw == self@,
    {
        self.raw
    }
}

/// The automations of a list that may be absent.
pub open spec fn automations_of(automations: Option<Vec<Automation>>) -> Option<
    Seq<AutomationView>,
> {
    match automations {
        Some(automations) => Some(automations.deep_view()),
        None => None,
    }
}

/// List of supported formats for [`Texture`]s.
#[derive(Debug, Clone, Copy, PartialEq, Eq, Structural)]
#[non_exhaustive]
pub enum TextureEncoding {
    /// Texture is PNG encoded (lossless).
    Png,
    /// Texture is in Truevision TGA / TARGA format (lossless).
    Tga,
    /// Texture is BC7 compressed (lossy). Not yet implemented.
    Bc7,
}

/// What a [`Texture`] is.
pub struct TextureView {
    pub enc: TextureEncoding,
    pub data: Seq<u8>,
}

/// A texture image.
#[derive(Debug)]
pub struct Texture {
    enc: TextureEncoding,
    data: Vec<u8>,
}

impl View for Texture {
    type V = TextureView;

    closed spec fn view(&self) -> TextureView {
        TextureView {
            enc: self.enc,
            data: self.data@,
        }
    }
}

impl Texture {
    pub fn encoding(&self) -> (r: TextureEncoding)
        ensures
            r == self@.enc,
    {
        self.enc
    }

    pub fn data(&self) -> (r: &[u8])
        ensures
            r@ == self@.data,
    {
        self.data.as_slice()
    }

    pub fn new(encoding: TextureEncoding, data: Vec<u8>) -> (r: Texture)
        ensures
            r@ == (TextureView { enc: encoding, data: data@ }),
    {
        Texture { enc: encoding, data }
    }
}

impl DeepView for Texture {
    type V = TextureView;

    open spec fn deep_view(&self) -> TextureView {
        self@
    }
}

/// What a [`VendorData`] is.
pub struct VendorDataView {
    pub name: Seq<char>,
    pub payload: Seq<u8>,
}

/// Vendor-specific extension data attached to a model.
#[derive(Debug)]
pub struct VendorData {
    name: String,
    payload: Vec<u8>,
}

impl View for VendorData {
    type V = VendorDataView;

    closed spec fn view(&self) -> VendorDataView {
        VendorDataView {
            name: self.name@,
            payload: self.payload@,
        }
    }
}

impl VendorData {
    /// The name identifying the application this data is intended for.
    pub fn name(&self) -> (r: &str)
        ensures
            r@ == self@.name,
    {
        self.name.as_str()
    }

    /// Returns the payload data.
    pub fn payload(&self) -> (r: &[u8])
        ensures
            r@ == self@.payload,
    {
        self.payload.as_slice()
    }

    pub fn new(name: String, data: Vec<u8>) -> (r: VendorData)
        ensures
            r@ == (VendorDataView { name: name@, payload: data@ }),
    {
        VendorData { name, payload: data }
    }
}

impl DeepView for VendorData {
    type V = VendorDataView;

    open spec fn deep_view(&self) -> VendorDataView {
        self@
    }
}

/// What a [`InochiPuppet`] is.
pub struct InochiPuppetView {
    pub meta: MetadataView,
    pub physics: PhysicsView,
    /// The root of the node tree.
    pub nodes: NodeView,
    pub param: Seq<ParamView>,
    /// The automations, where the description names any.
    pub automation: Option<Seq<AutomationView>>,
    pub textures: Seq<TextureView>,
    pub vendor_data: Seq<VendorDataView>,
}

/// A described puppet.
#[derive(Debug)]
pub struct InochiPuppet {
    meta: Metadata,
    physics: Physics,
    nodes: Node,
    param: Vec<Param>,
    automation: Option<Vec<Automation>>,
    textures: Vec<Texture>,
    vendor_data: Vec<VendorData>,
}

impl View for InochiPuppet {
    type V = InochiPuppetView;

    closed spec fn view(&self) -> InochiPuppetView {
        InochiPuppetView {
            meta: self.meta@,
            physics: self.physics@,
            nodes: self.nodes@,
            param: self.param.deep_view(),
            automation: automations_of(self.automation),
            textures: self.textures.deep_view(),
            vendor_data: self.vendor_data.deep_view(),
        }
    }
}

impl InochiPuppet {
    pub fn new(
        meta: Metadata,
        physics: Physics,
        nodes: Node,
        param: Vec<Param>,
        automation: Option<Vec<Automation>>,
        textures: Vec<Texture>,
        vendor_data: Vec<VendorData>,
    ) -> (r: InochiPuppet)
        ensures
            r@ == (InochiPuppetView {
                meta: meta@,
                physics: physics@,
                nodes: nodes@,
                param: param.deep_view(),
                automation: automations_of(automation),
                textures: textures.deep_view(),
                vendor_data: vendor_data.deep_view(),
            }),
    {
        let r = InochiPuppet {
            meta,
            physics,
            nodes,
            param,
            automation,
            textures,
            vendor_data,
        };
        r
    }

    /// Returns a reference to the model metadata, containing author, license,
    /// and version information.
    pub fn metadata(&self) -> (r: &Metadata)
        ensures
            r@ == self@.meta,
    {
        &self.meta
    }

    pub fn metadata_mut(&mut self) -> (r: &mut Metadata)
        ensures
            r@ == old(self)@.meta,
            final(self)@ == (InochiPuppetView { meta: final(r)@, ..old(self)@ }),
    {
        &mut self.meta
    }

    pub fn set_metadata(&mut self, metadata: Metadata)
        ensures
            final(self)@ == (InochiPuppetView { meta: metadata@, ..old(self)@ }),
    {
        self.meta = metadata;
    }

    pub fn physics(&self) -> (r: &Physics)
        ensures
            r@ == self@.physics,
    {
        &self.physics
    }

    pub fn physics_mut(&mut self) -> (r: &mut Physics)
        ensures
            r@ == old(self)@.physics,
            final(self)@ == (InochiPuppetView { physics: final(r)@, ..old(self)@ }),
    {
        &mut self.physics
    }

    pub fn set_physics(&mut self, physics: Physics)
        ensures
            final(self)@ == (InochiPuppetView { physics: physics@, ..old(self)@ }),
    {
        self.physics = physics;
    }

    pub fn root_node(&self) -> (r: &Node)
        ensures
            r@ == self@.nodes,
    {
        &self.nodes
    }

    pub fn root_node_mut(&mut self) -> (r: &mut Node)
        ensures
            r@ == old(self)@.nodes,
            final(self)@ == (InochiPuppetView { nodes: final(r)@, ..old(self)@ }),
    {
        &mut self.nodes
    }

    pub fn set_root_node(&mut self, node: Node)
        ensures
            final(self)@ == (InochiPuppetView { nodes: node@, ..old(self)@ }),
    {
        self.nodes = node;
    }

    pub fn params(&self) -> (r: &[Param])
        ensures
            r.deep_view() == self@.param,
    {
        self.param.as_slice()
    }

    pub fn textures(&self) -> (r: &[Texture])
        ensures
            r.deep_view() == self@.textures,
    {
        self.textures.as_slice()
    }

    pub fn vendor_data(&self) -> (r: &[VendorData])
        ensures
            r.deep_view() == self@.vendor_data,
    {
        self.vendor_data.as_slice()
    }

    pub fn params_mut(&mut self) -> (r: &mut [Param])
        ensures
            r.deep_view() == old(self)@.param,
            final(self)@ == (InochiPuppetView { param: final(r).deep_view(), ..old(self)@ }),
    {
        self.param.as_mut_slice()
    }

    pub fn push_param(&mut self, param: Param)
        ensures
            final(self)@ == (InochiPuppetView { param: old(self)@.param.push(param@), ..old(self)@ }),
    {
        self.param.push(param);
        assert(self.param.deep_view() =~= old(self).param.deep_view().push(param@));
    }

    pub fn automations(&self) -> (r: &[Automation])
        ensures
            r.deep_view() == match self@.automation {
                Some(automations) => automations,
                None => Seq::empty(),
            },
    {
        match &self.automation {
            Some(automations) => automations.as_slice(),
            None => {
                let none: &[Automation] = &[];
                assert(none.deep_view() =~= Seq::empty());
                none
            },
        }
    }

    /// The automations as the description holds them: none where it holds
    /// no list.
    pub fn automation_list(&self) -> (r: Option<&[Automation]>)
        ensures
            match r {
                Some(automations) => self@.automation == Some(automations.deep_view()),
                None => self@.automation is None,
            },
    {
        match &self.automation {
            Some(automations) => Some(automations.as_slice()),
            None => None,
        }
    }

    pub fn automations_mut(&mut self) -> (r: &mut [Automation])
        ensures
            r.deep_view() == match old(self)@.automation {
                Some(automations) => automations,
                None => Seq::empty(),
            },
            final(self)@ == (InochiPuppetView {
                automation: match old(self)@.automation {
                    Some(_) => Some(final(r).deep_view()),
                    None => None,
                },
                ..old(self)@
            }),
    {
        match &mut self.automation {
            Some(automations) => automations.as_mut_slice(),
            None => {
                let none: &mut [Automation] = &mut [];
                assert(none.deep_view() =~= Seq::empty());
                none
            },
        }
    }

    pub fn push_automation(&mut self, automation: Automation)
        ensures
            final(self)@ == (InochiPuppetView {
                automation: Some(
                    match old(self)@.automation {
                        Some(automations) => automations.push(automation@),
                        None => seq![automation@],
                    },
                ),
                ..old(self)@
            }),
    {
        let mut automations: Vec<Automation> = match self.automation.take() {
            Some(automations) => automations,
            None => {
                let none: Vec<Automation> = Vec::new();
                assert(none.deep_view() =~= Seq::empty());
                none
            },
        };
        let ghost before = automations.deep_view();
        assert(before == match old(self)@.automation {
            Some(automations) => automations,
            None => Seq::empty(),
        });
        automations.push(automation);
        assert(automations.deep_view() =~= before.push(automation@));
        assert(Seq::<AutomationView>::empty().push(automation@) =~= seq![automation@]);
        self.automation = Some(automations);
    }

    /// Adds a texture and returns its ID: its index among the textures.
    pub fn push_texture(&mut self, tex: Texture) -> (id: u32)
        requires
            old(self)@.textures.len() <= u32::MAX,
        ensures
            id == old(self)@.textures.len(),
            final(self)@ == (InochiPuppetView {
                textures: old(self)@.textures.push(tex@),
                ..old(self)@
            }),
    {
        let id: u32 = self.textures.len() as u32;
        self.textures.push(tex);
        assert(self.textures.deep_view() =~= old(self).textures.deep_view().push(tex@));
        id
    }

    /// Writes this puppet as a container around `json`, the JSON payload that
    /// describes it. Every length and count must fit in 32 bits.
    pub fn write(&self, json: &[u8]) -> (out: Vec<u8>)
        requires
            json@.len() <= u32::MAX,
            container::textures_fit(self@.textures),
            container::vendors_fit(self@.vendor_data),
        ensures
            out@ == container::container_bytes(json@, self@.textures, self@.vendor_data),
    {
        container::write(json, self.textures.as_slice(), self.vendor_data.as_slice())
    }

    pub fn vendor_data_mut(&mut self) -> (r: &mut [VendorData])
        ensures
            r.deep_view() == old(self)@.vendor_data,
            final(self)@ == (InochiPuppetView {
                vendor_data: final(r).deep_view(),
                ..old(self)@
            }),
    {
        self.vendor_data.as_mut_slice()
    }

    pub fn push_vendor_data(&mut self, data: VendorData)
        ensures
            final(self)@ == (InochiPuppetView {
                vendor_data: old(self)@.vendor_data.push(data@),
                ..old(self)@
            }),
    {
        self.vendor_data.push(data);
        assert(self.vendor_data.deep_view() =~= old(self).vendor_data.deep_view().push(data@));
    }
}

} // verus!
