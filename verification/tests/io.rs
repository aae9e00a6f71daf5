use rhino2d::io::automation::Automation;
use rhino2d::io::automation::AutomationAxis;
use rhino2d::io::automation::AutomationBase;
use rhino2d::io::automation::AutomationBinding;
use rhino2d::io::automation::PhysicsAutomation;
use rhino2d::io::automation::SineAutomation;
use rhino2d::io::automation::SineType;
use rhino2d::io::automation::VerletNode;
use rhino2d::io::metadata::Metadata;
use rhino2d::io::node::BlendMode;
use rhino2d::io::node::Composite;
use rhino2d::io::node::Drawable;
use rhino2d::io::node::JointBindingData;
use rhino2d::io::node::Mask;
use rhino2d::io::node::MaskMode;
use rhino2d::io::node::MeshData;
use rhino2d::io::node::Node;
use rhino2d::io::node::NodeBase;
use rhino2d::io::node::NodeKind;
use rhino2d::io::node::ParamMapMode;
use rhino2d::io::node::Part;
use rhino2d::io::node::PathDeform;
use rhino2d::io::node::PhysicsModel;
use rhino2d::io::node::SimplePhysics;
use rhino2d::io::node::Transform;
use rhino2d::io::param::InterpolateMode;
use rhino2d::io::param::Param;
use rhino2d::io::param::ParamBinding;
use rhino2d::io::param::ParamValue;
use rhino2d::io::physics::Physics;
use rhino2d::io::InochiPuppet;
use rhino2d::io::Texture;
use rhino2d::io::TextureEncoding;
use rhino2d::io::Uuid;
use rhino2d::io::VendorData;

const ONE: u32 = 0x3f80_0000;

fn f(v: f32) -> u32 {
    v.to_bits()
}

#[test]
fn uuid_holds_its_number() {
    assert_eq!(Uuid::new(0).raw(), 0);
    assert_eq!(Uuid::new(u64::MAX).raw(), u64::MAX);
    assert_eq!(Uuid::new(7), Uuid::new(7));
    assert_ne!(Uuid::new(7), Uuid::new(8));
}

#[test]
fn new_metadata_names_only_the_version() {
    let m = Metadata::new("v0.7.1".to_string());
    assert_eq!(m.version(), "v0.7.1");
    assert_eq!(m.name(), None);
    assert_eq!(m.rigger(), None);
    assert_eq!(m.artist(), None);
    assert_eq!(m.rights(), None);
    assert_eq!(m.copyright(), None);
    assert_eq!(m.license_url(), None);
    assert_eq!(m.contact(), None);
    assert_eq!(m.reference(), None);
    assert_eq!(m.thumbnail_id(), None);
    assert!(!m.preserve_pixels());
}

#[test]
fn metadata_setters_change_one_field_each() {
    let mut m = Metadata::new("1".to_string());
    m.set_name(Some("name".to_string()));
    m.set_rigger(Some("rigger".to_string()));
    m.set_artist(Some("artist".to_string()));
    m.set_rights(Some("rights".to_string()));
    m.set_copyright(Some("copyright".to_string()));
    m.set_license_url(Some("url".to_string()));
    m.set_contact(Some("contact".to_string()));
    m.set_reference(Some("reference".to_string()));
    m.set_version("2".to_string());
    m.set_preserve_pixels(true);
    assert_eq!(m.name(), Some("name"));
    assert_eq!(m.rigger(), Some("rigger"));
    assert_eq!(m.artist(), Some("artist"));
    assert_eq!(m.rights(), Some("rights"));
    assert_eq!(m.copyright(), Some("copyright"));
    assert_eq!(m.license_url(), Some("url"));
    assert_eq!(m.contact(), Some("contact"));
    assert_eq!(m.reference(), Some("reference"));
    assert_eq!(m.version(), "2");
    assert!(m.preserve_pixels());
    m.set_name(None);
    assert_eq!(m.name(), None);
    assert_eq!(m.rigger(), Some("rigger"));
}

#[test]
fn thumbnail_id_of_all_ones_stands_for_none() {
    let mut m = Metadata::new("1".to_string());
    m.set_thumbnail_id(Some(3));
    assert_eq!(m.thumbnail_id(), Some(3));
    assert_eq!(m.stored_thumbnail_id(), Some(3));
    m.set_thumbnail_id(Some(u32::MAX));
    assert_eq!(m.thumbnail_id(), None);
    assert_eq!(m.stored_thumbnail_id(), Some(u32::MAX));
    m.set_thumbnail_id(Some(u32::MAX - 1));
    assert_eq!(m.thumbnail_id(), Some(u32::MAX - 1));
    m.set_thumbnail_id(None);
    assert_eq!(m.thumbnail_id(), None);
    assert_eq!(m.stored_thumbnail_id(), None);
}

#[test]
fn physics_defaults() {
    let p = Physics::new();
    assert_eq!(f32::from_bits(p.pixels_per_meter()), 1000.0);
    assert_eq!(f32::from_bits(p.gravity()), 9.8);
    let mut d = Physics::default();
    assert_eq!(d.pixels_per_meter(), p.pixels_per_meter());
    assert_eq!(d.gravity(), p.gravity());
    d.set_gravity(f(1.5));
    d.set_pixels_per_meter(f(2.5));
    assert_eq!(f32::from_bits(d.gravity()), 1.5);
    assert_eq!(f32::from_bits(d.pixels_per_meter()), 2.5);
}

#[test]
fn texture_and_vendor_data_hold_what_they_were_made_of() {
    let t = Texture::new(TextureEncoding::Tga, vec![1, 2, 3]);
    assert_eq!(t.encoding(), TextureEncoding::Tga);
    assert_eq!(t.data(), &[1, 2, 3]);
    let v = VendorData::new("vendor".to_string(), vec![4, 5]);
    assert_eq!(v.name(), "vendor");
    assert_eq!(v.payload(), &[4, 5]);
}

#[test]
fn identity_transform() {
    let t = Transform::new();
    assert_eq!(t.translation(), [0, 0, 0]);
    assert_eq!(t.rotation(), [0, 0, 0]);
    assert_eq!(t.scale(), [ONE, ONE]);
}

#[test]
fn transform_setters_and_mutable_access() {
    let mut t = Transform::new();
    t.set_translation([1, 2, 3]);
    t.set_rotation([4, 5, 6]);
    t.set_scale([7, 8]);
    assert_eq!(t.translation(), [1, 2, 3]);
    assert_eq!(t.rotation(), [4, 5, 6]);
    assert_eq!(t.scale(), [7, 8]);
    t.translation_mut()[1] = 20;
    t.rotation_mut()[2] = 60;
    t.scale_mut()[0] = 70;
    assert_eq!(t.translation(), [1, 20, 3]);
    assert_eq!(t.rotation(), [4, 5, 60]);
    assert_eq!(t.scale(), [70, 8]);
}

#[test]
fn new_node_base() {
    let n = NodeBase::new(Uuid::new(5), "node".to_string());
    assert_eq!(n.uuid(), Uuid::new(5));
    assert_eq!(n.name(), "node");
    assert!(n.enabled());
    assert_eq!(n.zsort(), 0);
    assert_eq!(n.transform().scale(), [ONE, ONE]);
    assert!(!n.lock_to_root());
    assert!(n.children().is_empty());
}

#[test]
fn node_base_setters_and_children() {
    let mut n = NodeBase::new(Uuid::new(5), "node".to_string());
    n.set_uuid(Uuid::new(6));
    n.set_name("other".to_string());
    n.set_enabled(false);
    n.set_zsort(f(2.0));
    n.set_lock_to_root(true);
    let mut t = Transform::new();
    t.set_scale([f(2.0), f(3.0)]);
    n.set_transform(t);
    assert!(n.children_mut().is_empty());
    n.push_child(Node::Node(NodeBase::new(Uuid::new(7), "a".to_string())));
    n.push_child(Node::Node(NodeBase::new(Uuid::new(8), "b".to_string())));
    assert_eq!(n.uuid().raw(), 6);
    assert_eq!(n.name(), "other");
    assert!(!n.enabled());
    assert_eq!(n.zsort(), f(2.0));
    assert!(n.lock_to_root());
    assert_eq!(n.transform().scale(), [f(2.0), f(3.0)]);
    let names: Vec<&str> = n.children().iter().map(|c| c.base().name()).collect();
    assert_eq!(names, vec!["a", "b"]);
    n.children_mut()[1].base_mut().set_name("c".to_string());
    assert_eq!(n.children()[1].base().name(), "c");
    assert_eq!(n.children()[0].base().name(), "a");
}

fn base(id: u64) -> NodeBase {
    NodeBase::new(Uuid::new(id), format!("n{id}"))
}

fn mesh() -> MeshData {
    MeshData::new(
        vec![f(0.0), f(1.0), f(2.0), f(3.0), f(4.0), f(5.0)],
        Some(vec![f(0.5), f(0.25), f(0.75), f(1.0)]),
        vec![0, 1, 2],
        [f(9.0), f(8.0)],
    )
}

#[test]
fn mesh_vertices_come_in_pairs() {
    let mut m = mesh();
    assert_eq!(m.vertex_count(), 3);
    assert_eq!(m.verts(), vec![[f(0.0), f(1.0)], [f(2.0), f(3.0)], [f(4.0), f(5.0)]]);
    assert_eq!(m.uvs(), Some(vec![[f(0.5), f(0.25)], [f(0.75), f(1.0)]]));
    assert_eq!(m.flat_verts().len(), 6);
    assert_eq!(m.flat_uvs().map(|u| u.len()), Some(4));
    assert_eq!(m.indices(), &[0, 1, 2]);
    assert_eq!(m.origin(), [f(9.0), f(8.0)]);
    m.set_origin([1, 2]);
    assert_eq!(m.origin(), [1, 2]);
    let empty = MeshData::new(vec![], None, vec![], [0, 0]);
    assert_eq!(empty.vertex_count(), 0);
    assert!(empty.verts().is_empty());
    assert_eq!(empty.uvs(), None);
    assert_eq!(empty.flat_uvs(), None);
}

#[test]
fn kinds_and_names_of_nodes() {
    let drawable = || Drawable::new(base(1), mesh());
    let part = Part::new(drawable(), vec![], ONE, 0, [ONE; 3], BlendMode::Normal, None, None);
    let physics = SimplePhysics::new(
        base(1),
        Uuid::new(2),
        PhysicsModel::Pendulum,
        ParamMapMode::XY,
        1,
        2,
        3,
        4,
        5,
        [6, 7],
    );
    let nodes = vec![
        (Node::Node(base(1)), NodeKind::Node, "Node"),
        (Node::Drawable(drawable()), NodeKind::Drawable, "Drawable"),
        (
            Node::PathDeform(PathDeform::new(base(1), vec![], vec![])),
            NodeKind::PathDeform,
            "PathDeform",
        ),
        (Node::Part(part), NodeKind::Part, "Part"),
        (Node::Mask(Mask::new(drawable())), NodeKind::Mask, "Mask"),
        (
            Node::Composite(Composite::new(base(1), BlendMode::Screen, [0; 3], 0, 0)),
            NodeKind::Composite,
            "Composite",
        ),
        (Node::SimplePhysics(physics), NodeKind::SimplePhysics, "SimplePhysics"),
    ];
    for (node, kind, name) in nodes {
        assert_eq!(node.kind(), kind);
        assert_eq!(node.kind_name(), name);
        assert_eq!(node.base().uuid().raw(), 1);
    }
}

#[test]
fn part_fields() {
    let mut p = Part::new(
        Drawable::new(base(1), mesh()),
        vec![4],
        f(0.5),
        f(0.25),
        [1, 2, 3],
        BlendMode::Multiply,
        Some(MaskMode::Dodge),
        Some(vec![Uuid::new(9)]),
    );
    assert_eq!(p.textures(), &[4]);
    assert_eq!(p.opacity(), f(0.5));
    assert_eq!(p.mask_threshold(), f(0.25));
    assert_eq!(p.tint(), [1, 2, 3]);
    assert_eq!(p.blend_mode(), BlendMode::Multiply);
    assert_eq!(p.mask_mode(), Some(MaskMode::Dodge));
    assert_eq!(p.masked_by(), &[Uuid::new(9)]);
    assert_eq!(p.drawable().mesh_data().vertex_count(), 3);
    assert_eq!(p.drawable().base().uuid().raw(), 1);
    p.push_texture(5);
    p.set_opacity(1);
    p.set_mask_threshold(2);
    p.set_tint([3, 4, 5]);
    p.set_blend_mode(BlendMode::ColorDodge);
    p.set_mask_mode(None);
    p.set_masked_by(None);
    assert_eq!(p.textures(), &[4, 5]);
    p.set_textures(vec![6]);
    assert_eq!(p.textures(), &[6]);
    assert_eq!(p.opacity(), 1);
    assert_eq!(p.mask_threshold(), 2);
    assert_eq!(p.tint(), [3, 4, 5]);
    assert_eq!(p.blend_mode(), BlendMode::ColorDodge);
    assert_eq!(p.mask_mode(), None);
    assert!(p.masked_by().is_empty());
}

#[test]
fn composite_and_physics_fields() {
    let mut c = Composite::new(base(1), BlendMode::Screen, [1, 2, 3], 4, 5);
    assert_eq!(c.blend_mode(), BlendMode::Screen);
    assert_eq!(c.tint(), [1, 2, 3]);
    assert_eq!(c.mask_threshold(), 4);
    assert_eq!(c.opacity(), 5);
    c.set_blend_mode(BlendMode::LinearDodge);
    c.set_tint([0; 3]);
    c.set_mask_threshold(6);
    c.set_opacity(7);
    assert_eq!(c.blend_mode(), BlendMode::LinearDodge);
    assert_eq!(c.tint(), [0; 3]);
    assert_eq!(c.mask_threshold(), 6);
    assert_eq!(c.opacity(), 7);

    let mut p = SimplePhysics::new(
        base(1),
        Uuid::new(2),
        PhysicsModel::SpringPendulum,
        ParamMapMode::AngleLength,
        1,
        2,
        3,
        4,
        5,
        [6, 7],
    );
    assert_eq!(p.param(), Uuid::new(2));
    assert_eq!(p.model_type(), PhysicsModel::SpringPendulum);
    assert_eq!(p.map_mode(), ParamMapMode::AngleLength);
    assert_eq!(
        (p.gravity(), p.length(), p.frequency(), p.angle_damping(), p.length_damping()),
        (1, 2, 3, 4, 5)
    );
    assert_eq!(p.output_scale(), [6, 7]);
    p.set_param(Uuid::new(3));
    p.set_model_type(PhysicsModel::Pendulum);
    p.set_map_mode(ParamMapMode::XY);
    p.set_gravity(10);
    p.set_length(20);
    p.set_frequency(30);
    p.set_angle_damping(40);
    p.set_length_damping(50);
    p.set_output_scale([60, 70]);
    assert_eq!(p.param(), Uuid::new(3));
    assert_eq!(p.model_type(), PhysicsModel::Pendulum);
    assert_eq!(p.map_mode(), ParamMapMode::XY);
    assert_eq!(
        (p.gravity(), p.length(), p.frequency(), p.angle_damping(), p.length_damping()),
        (10, 20, 30, 40, 50)
    );
    assert_eq!(p.output_scale(), [60, 70]);
}

#[test]
fn path_deform_joints_and_bindings() {
    let mut d = PathDeform::new(base(1), vec![[1, 2]], vec![]);
    d.push_joint([3, 4]);
    d.push_binding(JointBindingData::new(Uuid::new(9), vec![vec![0, 1], vec![2]]));
    assert_eq!(d.joint_origins(), &[[1, 2], [3, 4]]);
    assert_eq!(d.bindings().len(), 1);
    assert_eq!(d.bindings()[0].bound_to(), Uuid::new(9));
    assert_eq!(d.bindings()[0].bind_data(), &[vec![0, 1], vec![2]]);
    d.bindings_mut()[0].set_bound_to(Uuid::new(10));
    assert_eq!(d.bindings()[0].bound_to(), Uuid::new(10));
    d.set_joint_origins(vec![]);
    d.set_bindings(vec![]);
    assert!(d.joint_origins().is_empty());
    assert!(d.bindings().is_empty());
}

#[test]
fn drawable_mesh_access() {
    let mut d = Drawable::new(base(1), mesh());
    d.mesh_data_mut().set_origin([1, 1]);
    assert_eq!(d.mesh_data().origin(), [1, 1]);
    d.set_mesh_data(MeshData::new(vec![], None, vec![7], [0, 0]));
    assert_eq!(d.mesh_data().indices(), &[7]);
}

#[test]
fn param_fields() {
    let mut p = Param::new(
        Uuid::new(1),
        "p".to_string(),
        true,
        [1, 2],
        [3, 4],
        [5, 6],
        vec![vec![0, ONE], vec![0]],
    );
    assert_eq!(p.uuid(), Uuid::new(1));
    assert_eq!(p.name(), "p");
    assert!(p.is_vec2());
    assert_eq!(p.min(), [1, 2]);
    assert_eq!(p.max(), [3, 4]);
    assert_eq!(p.defaults(), [5, 6]);
    assert_eq!(p.axis_points(), &[vec![0, ONE], vec![0]]);
    assert!(p.bindings().is_empty());
    p.set_uuid(Uuid::new(2));
    p.set_name("q".to_string());
    p.set_vec2(false);
    p.set_min([7, 8]);
    p.set_max([9, 10]);
    p.set_defaults([11, 12]);
    p.set_axis_points(vec![]);
    let binding = || {
        ParamBinding::new(
            Uuid::new(3),
            "zSort".to_string(),
            vec![vec![ParamValue::Scalar(1)]],
            vec![vec![true]],
            InterpolateMode::Linear,
        )
    };
    p.push_binding(binding());
    p.push_binding(binding());
    assert_eq!(p.uuid(), Uuid::new(2));
    assert_eq!(p.name(), "q");
    assert!(!p.is_vec2());
    assert_eq!(p.min(), [7, 8]);
    assert_eq!(p.max(), [9, 10]);
    assert_eq!(p.defaults(), [11, 12]);
    assert!(p.axis_points().is_empty());
    assert_eq!(p.bindings().len(), 2);
    p.set_bindings(vec![binding()]);
    assert_eq!(p.bindings().len(), 1);
    p.clear_bindings();
    assert!(p.bindings().is_empty());
}

#[test]
fn param_binding_fields() {
    let mut b = ParamBinding::new(
        Uuid::new(3),
        "zSort".to_string(),
        vec![vec![ParamValue::Scalar(1), ParamValue::Deformation(vec![[2, 3]])]],
        vec![vec![true, false]],
        InterpolateMode::Linear,
    );
    assert_eq!(b.node(), Uuid::new(3));
    assert_eq!(b.param_name(), "zSort");
    assert_eq!(b.interpolate_mode(), InterpolateMode::Linear);
    assert_eq!(b.is_set(), &[vec![true, false]]);
    assert!(matches!(b.values()[0][0], ParamValue::Scalar(1)));
    assert!(matches!(&b.values()[0][1], ParamValue::Deformation(d) if d == &vec![[2, 3]]));
    b.set_node(Uuid::new(4));
    b.set_param_name("deform".to_string());
    b.set_interpolate_mode(InterpolateMode::Nearest);
    b.set_values(vec![]);
    assert_eq!(b.node(), Uuid::new(4));
    assert_eq!(b.param_name(), "deform");
    assert_eq!(b.interpolate_mode(), InterpolateMode::Nearest);
    assert!(b.values().is_empty());
}

#[test]
fn automations() {
    let mut sine = SineAutomation::new("wave".to_string(), SineType::Cos, f(2.0));
    assert_eq!(sine.base().name(), "wave");
    assert!(sine.base().bindings().is_empty());
    assert_eq!(sine.speed(), f(2.0));
    assert_eq!(sine.sine_type(), SineType::Cos);
    sine.set_speed(f(3.0));
    sine.set_sine_type(SineType::Tan);
    sine.push_binding(AutomationBinding::new("p".to_string(), AutomationAxis::Y, [1, 2]));
    assert_eq!(sine.speed(), f(3.0));
    assert_eq!(sine.sine_type(), SineType::Tan);
    assert_eq!(sine.base().bindings()[0].param(), "p");
    assert_eq!(sine.base().bindings()[0].axis(), AutomationAxis::Y);
    assert_eq!(sine.base().bindings()[0].range(), [1, 2]);

    let mut physics = PhysicsAutomation::new("chain".to_string());
    assert_eq!(f32::from_bits(physics.damping()), 0.05);
    assert_eq!(f32::from_bits(physics.bounciness()), 1.0);
    assert_eq!(f32::from_bits(physics.gravity()), 20.0);
    assert!(physics.nodes().is_empty());
    physics.push_node(VerletNode::new([f(1.0), f(2.0)]));
    physics.push_node(VerletNode::moving(5, [1, 2], [3, 4]));
    physics.set_damping(1);
    physics.set_bounciness(2);
    physics.set_gravity(3);
    assert_eq!((physics.damping(), physics.bounciness(), physics.gravity()), (1, 2, 3));
    assert_eq!(f32::from_bits(physics.nodes()[0].distance()), 1.0);
    assert_eq!(physics.nodes()[0].position(), [f(1.0), f(2.0)]);
    assert_eq!(physics.nodes()[0].old_position(), [f(1.0), f(2.0)]);
    assert_eq!(physics.nodes()[1].old_position(), [3, 4]);
    physics.nodes_mut()[0].set_distance(9);
    physics.nodes_mut()[0].set_position([7, 8]);
    assert_eq!(physics.nodes()[0].distance(), 9);
    assert_eq!(physics.nodes()[0].position(), [7, 8]);

    let a: Automation = sine.into();
    assert!(matches!(a, Automation::Sine(_)));
    assert_eq!(a.base().name(), "wave");
    let b = Automation::from(physics);
    assert!(matches!(b, Automation::Physics(_)));
    assert_eq!(b.base().name(), "chain");
}

#[test]
fn automation_base_and_binding_setters() {
    let mut base = AutomationBase::new("a".to_string());
    base.set_name("b".to_string());
    base.push_binding(AutomationBinding::new("p".to_string(), AutomationAxis::X, [0, 0]));
    base.bindings_mut()[0].set_param("q".to_string());
    base.bindings_mut()[0].set_axis(AutomationAxis::Y);
    base.bindings_mut()[0].set_range([1, 2]);
    assert_eq!(base.name(), "b");
    assert_eq!(base.bindings()[0].param(), "q");
    assert_eq!(base.bindings()[0].axis(), AutomationAxis::Y);
    assert_eq!(base.bindings()[0].range(), [1, 2]);
}

fn puppet() -> InochiPuppet {
    InochiPuppet::new(
        Metadata::new("1".to_string()),
        Physics::new(),
        Node::Node(base(1)),
        vec![],
        None,
        vec![],
        vec![],
    )
}

#[test]
fn puppet_parts() {
    let mut p = puppet();
    assert_eq!(p.metadata().version(), "1");
    assert_eq!(p.root_node().base().uuid().raw(), 1);
    assert!(p.params().is_empty());
    assert!(p.automations().is_empty());
    assert!(p.automations_mut().is_empty());
    assert!(p.textures().is_empty());
    assert!(p.vendor_data().is_empty());
    assert_eq!(p.push_texture(Texture::new(TextureEncoding::Png, vec![1])), 0);
    assert_eq!(p.push_texture(Texture::new(TextureEncoding::Tga, vec![2])), 1);
    assert_eq!(p.textures()[1].data(), &[2]);
    p.push_vendor_data(VendorData::new("v".to_string(), vec![3]));
    assert_eq!(p.vendor_data()[0].name(), "v");
    assert_eq!(p.vendor_data_mut().len(), 1);
    p.push_param(Param::new(Uuid::new(4), "p".to_string(), false, [0; 2], [0; 2], [0; 2], vec![]));
    p.params_mut()[0].set_name("q".to_string());
    assert_eq!(p.params()[0].name(), "q");
    p.push_automation(PhysicsAutomation::new("a".to_string()).into());
    p.push_automation(SineAutomation::new("b".to_string(), SineType::Sin, 0).into());
    let names: Vec<&str> = p.automations().iter().map(|a| a.base().name()).collect();
    assert_eq!(names, vec!["a", "b"]);
    assert_eq!(p.automations_mut().len(), 2);
    p.metadata_mut().set_version("2".to_string());
    assert_eq!(p.metadata().version(), "2");
    p.physics_mut().set_gravity(5);
    assert_eq!(p.physics().gravity(), 5);
    p.root_node_mut().base_mut().set_zsort(6);
    assert_eq!(p.root_node().base().zsort(), 6);
    p.set_metadata(Metadata::new("3".to_string()));
    p.set_physics(Physics::new());
    p.set_root_node(Node::Node(base(2)));
    assert_eq!(p.metadata().version(), "3");
    assert_eq!(f32::from_bits(p.physics().gravity()), 9.8);
    assert_eq!(p.root_node().base().uuid().raw(), 2);
}

#[test]
fn puppet_writes_its_container() {
    let mut p = puppet();
    p.push_texture(Texture::new(TextureEncoding::Png, vec![1, 2]));
    p.push_vendor_data(VendorData::new("v".to_string(), vec![3]));
    let bytes = p.write(b"{}");
    let expected = rhino2d::io::container::write(b"{}", p.textures(), p.vendor_data());
    assert_eq!(bytes, expected);
    let (start, end) = rhino2d::io::container::read_json(&bytes).ok().unwrap();
    assert_eq!(&bytes[start..end], b"{}");
    let (textures, vendor) = rhino2d::io::container::read_sections(&bytes, end).ok().unwrap();
    assert_eq!(textures[0].data(), &[1, 2]);
    assert_eq!(vendor[0].payload(), &[3]);
}

#[test]
fn no_list_differs_from_an_empty_list() {
    let mut n = base(1);
    assert!(n.children_list().is_none());
    n.set_children(Some(vec![]));
    assert_eq!(n.children_list().map(|c| c.len()), Some(0));
    assert!(n.children().is_empty());
    n.set_children(Some(vec![Node::Node(base(2))]));
    assert_eq!(n.children().len(), 1);
    n.set_children(None);
    assert!(n.children_list().is_none());
    n.push_child(Node::Node(base(3)));
    assert_eq!(n.children_list().map(|c| c.len()), Some(1));

    let mut p = Part::new(
        Drawable::new(base(1), mesh()),
        vec![],
        0,
        0,
        [0; 3],
        BlendMode::Normal,
        None,
        None,
    );
    assert!(p.masked_by_list().is_none());
    p.set_masked_by(Some(vec![]));
    assert_eq!(p.masked_by_list().map(|m| m.len()), Some(0));

    let mut puppet = puppet();
    assert!(puppet.automation_list().is_none());
    puppet.push_automation(PhysicsAutomation::new("a".to_string()).into());
    assert_eq!(puppet.automation_list().map(|a| a.len()), Some(1));
}

#[test]
fn nodes_give_access_to_their_base() {
    let mut node = Node::Part(Part::new(
        Drawable::new(base(4), mesh()),
        vec![],
        0,
        0,
        [0; 3],
        BlendMode::Normal,
        None,
        None,
    ));
    assert_eq!(node.uuid().raw(), 4);
    assert_eq!(node.name(), "n4");
    node.set_zsort(9);
    assert_eq!(node.zsort(), 9);
    if let Node::Part(part) = &mut node {
        assert_eq!(part.mesh_data().vertex_count(), 3);
        assert_eq!(part.uuid().raw(), 4);
        part.set_enabled(false);
        part.mesh_data_mut().set_origin([3, 3]);
        assert!(!part.enabled());
        assert_eq!(part.mesh_data().origin(), [3, 3]);
    }
    let mut composite = Composite::new(base(5), BlendMode::Normal, [0; 3], 0, 0);
    composite.set_name("c".to_string());
    assert_eq!(composite.name(), "c");
    let mut mask = Mask::new(Drawable::new(base(6), mesh()));
    mask.set_lock_to_root(true);
    assert!(mask.lock_to_root());
    assert_eq!(mask.mesh_data().indices(), &[0, 1, 2]);

    let mut sine = SineAutomation::new("s".to_string(), SineType::Sin, 0);
    sine.set_name("t".to_string());
    assert_eq!(sine.name(), "t");
    let mut automation: Automation = sine.into();
    automation.set_name("u".to_string());
    assert_eq!(automation.name(), "u");
    assert!(automation.bindings().is_empty());
}
