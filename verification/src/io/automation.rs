//! Automations: what moves parameters by itself.

use crate::float::ONE;
use crate::io::Vec2;
use vstd::prelude::*;

verus! {

/// The bit pattern of `0.05`, the damping of a new physics automation.
pub const DAMPING: u32 = 0x3d4c_cccd;

/// The bit pattern of `20.0`, the gravity of a new physics automation.
pub const GRAVITY: u32 = 0x41a0_0000;

#[derive(Debug, Clone, Copy, PartialEq, Eq, Structural)]
pub enum AutomationAxis {
    X,
    Y,
}

#[derive(Debug, Clone, Copy, PartialEq, Eq, Structural)]
#[non_exhaustive]
pub enum SineType {
    Sin,
    Cos,
    Tan,
}

/// What a [`AutomationBinding`] is.
pub struct AutomationBindingView {
    pub param: Seq<char>,
    pub axis: AutomationAxis,
    pub range: Seq<u32>,
}

/// Describes how an [`Automation`] affects a parameter of the model.
#[derive(Debug)]
pub struct AutomationBinding {
    param: String,
    axis: AutomationAxis,
    range: Vec2,
}

impl View for AutomationBinding {
    type V = AutomationBindingView;

    closed spec fn view(&self) -> AutomationBindingView {
        AutomationBindingView {
            param: self.param@,
            axis: self.axis,
            range: self.range@,
        }
    }
}

impl AutomationBinding {
    pub fn new(param: String, axis: AutomationAxis, range: Vec2) -> (r: AutomationBinding)
        ensures
            r@ == (AutomationBindingView {
                param: param@,
                axis,
                range: range@,
            }),
    {
        let r = AutomationBinding {
            param,
            axis,
            range,
        };
        r
    }

    pub fn param(&self) -> (r: &str)
        ensures
            r@ == self@.param,
    {
        self.param.as_str()
    }

    /// Sets the name of the parameter affected by this binding.
    pub fn set_param(&mut self, param: String)
        ensures
            final(self)@ == (AutomationBindingView { param: param@, ..old(self)@ }),
    {
        self.param = param;
    }

    pub fn axis(&self) -> (r: AutomationAxis)
        ensures
            r == self@.axis,
    {
        self.axis
    }

    /// Sets the axis of the parameter that is affected.
    pub fn set_axis(&mut self, axis: AutomationAxis)
        ensures
            final(self)@ == (AutomationBindingView { axis, ..old(self)@ }),
    {
        self.axis = axis;
    }

    pub fn range(&self) -> (r: Vec2)
        ensures
            r@ == self@.range,
    {
        self.range
    }

    pub fn set_range(&mut self, range: Vec2)
        ensures
            final(self)@ == (AutomationBindingView { range: range@, ..old(self)@ }),
    {
        self.range = range;
    }
}

impl DeepView for AutomationBinding {
    type V = AutomationBindingView;

    open spec fn deep_view(&self) -> AutomationBindingView {
        self@
    }
}

/// What a [`AutomationBase`] is.
pub struct AutomationBaseView {
    pub name: Seq<char>,
    pub bindings: Seq<AutomationBindingView>,
}

/// What every automation has: a name and its bindings.
#[derive(Debug)]
pub struct AutomationBase {
    name: String,
    bindings: Vec<AutomationBinding>,
}

impl View for AutomationBase {
    type V = AutomationBaseView;

    closed spec fn view(&self) -> AutomationBaseView {
        AutomationBaseView {
            name: self.name@,
            bindings: self.bindings.deep_view(),
        }
    }
}

impl AutomationBase {
    pub fn new(name: String) -> (r: AutomationBase)
        ensures
            r@ == (AutomationBaseView {
                name: name@,
                bindings: Seq::empty(),
            }),
    {
        let r = AutomationBase {
            name,
            bindings: Vec::new(),
        };
        assert(r.bindings.deep_view() =~= Seq::empty());
        r
    }

    pub fn name(&self) -> (r: &str)
        ensures
            r@ == self@.name,
    {
        self.name.as_str()
    }

    pub fn set_name(&mut self, name: String)
        ensures
            final(self)@ == (AutomationBaseView { name: name@, ..old(self)@ }),
    {
        self.name = name;
    }

    pub fn bindings(&self) -> (r: &[AutomationBinding])
        ensures
            r.deep_view() == self@.bindings,
    {
        self.bindings.as_slice()
    }

    pub fn bindings_mut(&mut self) -> (r: &mut [AutomationBinding])
        ensures
            r.deep_view() == old(self)@.bindings,
            final(self)@ == (AutomationBaseView { bindings: final(r).deep_view(), ..old(self)@ }),
    {
        self.bindings.as_mut_slice()
    }

    pub fn push_binding(&mut self, binding: AutomationBinding)
        ensures
            final(self)@ == (AutomationBaseView {
                bindings: old(self)@.bindings.push(binding@),
                ..old(self)@
            }),
    {
        self.bindings.push(binding);
        assert(self.bindings.deep_view() =~= old(self).bindings.deep_view().push(binding@));
    }
}

/// What a [`SineAutomation`] is.
pub struct SineAutomationView {
    pub automation: AutomationBaseView,
    pub speed: u32,
    pub sine_type: SineType,
}

/// An automation that moves parameters along a sine wave.
#[derive(Debug)]
pub struct SineAutomation {
    automation: AutomationBase,
    speed: u32,
    sine_type: SineType,
}

impl View for SineAutomation {
    type V = SineAutomationView;

    closed spec fn view(&self) -> SineAutomationView {
        SineAutomationView {
            automation: self.automation@,
            speed: self.speed,
            sine_type: self.sine_type,
        }
    }
}

impl SineAutomation {
    /// What this automation shares with every automation.
    pub fn base(&self) -> (r: &AutomationBase)
        ensures
            r@ == self@.automation,
    {
        &self.automation
    }

    /// What this automation shares with every automation, for changing it.
    pub fn base_mut(&mut self) -> (r: &mut AutomationBase)
        ensures
            r@ == old(self)@.automation,
            final(self)@ == (SineAutomationView { automation: final(r)@, ..old(self)@ }),
    {
        &mut self.automation
    }

    pub fn speed(&self) -> (r: u32)
        ensures
            r == self@.speed,
    {
        self.speed
    }

    pub fn set_speed(&mut self, speed: u32)
        ensures
            final(self)@ == (SineAutomationView { speed, ..old(self)@ }),
    {
        self.speed = speed;
    }

    pub fn sine_type(&self) -> (r: SineType)
        ensures
            r == self@.sine_type,
    {
        self.sine_type
    }

    pub fn set_sine_type(&mut self, sine_type: SineType)
        ensures
            final(self)@ == (SineAutomationView { sine_type, ..old(self)@ }),
    {
        self.sine_type = sine_type;
    }

    pub fn new(name: String, sine_type: SineType, speed: u32) -> (r: SineAutomation)
        ensures
            r@ == (SineAutomationView {
                automation: AutomationBaseView { name: name@, bindings: Seq::empty() },
                speed,
                sine_type,
            }),
    {
        SineAutomation { automation: AutomationBase::new(name), speed, sine_type }
    }

    /// Adds a binding to this automation.
    pub fn push_binding(&mut self, binding: AutomationBinding)
        ensures
            final(self)@ == (SineAutomationView {
                automation: AutomationBaseView {
                    bindings: old(self)@.automation.bindings.push(binding@),
                    ..old(self)@.automation
                },
                ..old(self)@
            }),
    {
        self.automation.push_binding(binding);
    }
}

/// What a [`VerletNode`] is.
pub struct VerletNodeView {
    pub distance: u32,
    pub position: Seq<u32>,
    pub old_position: Seq<u32>,
}

/// One point of a chain that a physics automation simulates.
#[derive(Debug)]
pub struct VerletNode {
    distance: u32,
    position: Vec2,
    old_position: Vec2,
}

impl View for VerletNode {
    type V = VerletNodeView;

    closed spec fn view(&self) -> VerletNodeView {
        VerletNodeView {
            distance: self.distance,
            position: self.position@,
            old_position: self.old_position@,
        }
    }
}

impl VerletNode {
    /// Returns the node's desired distance to its parent.
    pub fn distance(&self) -> (r: u32)
        ensures
            r == self@.distance,
    {
        self.distance
    }

    pub fn set_distance(&mut self, distance: u32)
        ensures
            final(self)@ == (VerletNodeView { distance, ..old(self)@ }),
    {
        self.distance = distance;
    }

    pub fn position(&self) -> (r: Vec2)
        ensures
            r@ == self@.position,
    {
        self.position
    }

    pub fn set_position(&mut self, position: Vec2)
        ensures
            final(self)@ == (VerletNodeView { position: position@, ..old(self)@ }),
    {
        self.position = position;
    }

    pub fn old_position(&self) -> (r: Vec2)
        ensures
            r@ == self@.old_position,
    {
        self.old_position
    }

    /// A node at `position` that has not moved yet, at distance one from its
    /// parent.
    pub fn new(position: Vec2) -> (r: VerletNode)
        ensures
            r@ == (VerletNodeView {
                distance: ONE,
                position: position@,
                old_position: position@,
            }),
    {
        VerletNode { distance: ONE, position, old_position: position }
    }

    /// A node in the midst of a simulation: at `position`, after it was at
    /// `old_position`.
    pub fn moving(distance: u32, position: Vec2, old_position: Vec2) -> (r: VerletNode)
        ensures
            r@ == (VerletNodeView {
                distance,
                position: position@,
                old_position: old_position@,
            }),
    {
        VerletNode { distance, position, old_position }
    }
}

impl DeepView for VerletNode {
    type V = VerletNodeView;

    open spec fn deep_view(&self) -> VerletNodeView {
        self@
    }
}

/// What a [`PhysicsAutomation`] is.
pub struct PhysicsAutomationView {
    pub automation: AutomationBaseView,
    pub nodes: Seq<VerletNodeView>,
    pub damping: u32,
    pub bounciness: u32,
    pub gravity: u32,
}

/// An automation that moves parameters by a simulated chain of points.
#[derive(Debug)]
pub struct PhysicsAutomation {
    automation: AutomationBase,
    nodes: Vec<VerletNode>,
    damping: u32,
    bounciness: u32,
    gravity: u32,
}

impl View for PhysicsAutomation {
    type V = PhysicsAutomationView;

    closed spec fn view(&self) -> PhysicsAutomationView {
        PhysicsAutomationView {
            automation: self.automation@,
            nodes: self.nodes.deep_view(),
            damping: self.damping,
            bounciness: self.bounciness,
            gravity: self.gravity,
        }
    }
}

impl PhysicsAutomation {
    /// What this automation shares with every automation.
    pub fn base(&self) -> (r: &AutomationBase)
        ensures
            r@ == self@.automation,
    {
        &self.automation
    }

    /// What this automation shares with every automation, for changing it.
    pub fn base_mut(&mut self) -> (r: &mut AutomationBase)
        ensures
            r@ == old(self)@.automation,
            final(self)@ == (PhysicsAutomationView { automation: final(r)@, ..old(self)@ }),
    {
        &mut self.automation
    }

    pub fn nodes(&self) -> (r: &[VerletNode])
        ensures
            r.deep_view() == self@.nodes,
    {
        self.nodes.as_slice()
    }

    pub fn nodes_mut(&mut self) -> (r: &mut [VerletNode])
        ensures
            r.deep_view() == old(self)@.nodes,
            final(self)@ == (PhysicsAutomationView { nodes: final(r).deep_view(), ..old(self)@ }),
    {
        self.nodes.as_mut_slice()
    }

    pub fn damping(&self) -> (r: u32)
        ensures
            r == self@.damping,
    {
        self.damping
    }

    pub fn set_damping(&mut self, damping: u32)
        ensures
            final(self)@ == (PhysicsAutomationView { damping, ..old(self)@ }),
    {
        self.damping = damping;
    }

    pub fn bounciness(&self) -> (r: u32)
        ensures
            r == self@.bounciness,
    {
        self.bounciness
    }

    pub fn set_bounciness(&mut self, bounciness: u32)
        ensures
            final(self)@ == (PhysicsAutomationView { bounciness, ..old(self)@ }),
    {
        self.bounciness = bounciness;
    }

    pub fn gravity(&self) -> (r: u32)
        ensures
            r == self@.gravity,
    {
        self.gravity
    }

    pub fn set_gravity(&mut self, gravity: u32)
        ensures
            final(self)@ == (PhysicsAutomationView { gravity, ..old(self)@ }),
    {
        self.gravity = gravity;
    }

    /// An automation without nodes, with damping 0.05, bounciness 1 and
    /// gravity 20.
    pub fn new(name: String) -> (r: PhysicsAutomation)
        ensures
            r@ == (PhysicsAutomationView {
                automation: AutomationBaseView { name: name@, bindings: Seq::empty() },
                nodes: Seq::empty(),
                damping: DAMPING,
                bounciness: ONE,
                gravity: GRAVITY,
            }),
    {
        let r = PhysicsAutomation {
            automation: AutomationBase::new(name),
            nodes: Vec::new(),
            damping: DAMPING,
            bounciness: ONE,
            gravity: GRAVITY,
        };
        assert(r.nodes.deep_view() =~= Seq::empty());
        r
    }

    pub fn push_node(&mut self, node: VerletNode)
        ensures
            final(self)@ == (PhysicsAutomationView {
                nodes: old(self)@.nodes.push(node@),
                ..old(self)@
            }),
    {
        self.nodes.push(node);
        assert(self.nodes.deep_view() =~= old(self).nodes.deep_view().push(node@));
    }

    /// Adds a binding to this automation.
    pub fn push_binding(&mut self, binding: AutomationBinding)
        ensures
            final(self)@ == (PhysicsAutomationView {
                automation: AutomationBaseView {
                    bindings: old(self)@.automation.bindings.push(binding@),
                    ..old(self)@.automation
                },
                ..old(self)@
            }),
    {
        self.automation.push_binding(binding);
    }
}

impl core::ops::Deref for SineAutomation {
    type Target = AutomationBase;

    fn deref(&self) -> (r: &AutomationBase)
        ensures
            r@ == self@.automation,
    {
        self.base()
    }
}

impl core::ops::DerefMut for SineAutomation {
    fn deref_mut(&mut self) -> (r: &mut AutomationBase)
        ensures
            r@ == old(self)@.automation,
            final(self)@ == (SineAutomationView { automation: final(r)@, ..old(self)@ }),
    {
        self.base_mut()
    }
}

impl core::ops::Deref for PhysicsAutomation {
    type Target = AutomationBase;

    fn deref(&self) -> (r: &AutomationBase)
        ensures
            r@ == self@.automation,
    {
        self.base()
    }
}

impl core::ops::DerefMut for PhysicsAutomation {
    fn deref_mut(&mut self) -> (r: &mut AutomationBase)
        ensures
            r@ == old(self)@.automation,
            final(self)@ == (PhysicsAutomationView { automation: final(r)@, ..old(self)@ }),
    {
        self.base_mut()
    }
}

/// What an [`Automation`] is.
pub enum AutomationView {
    Sine(SineAutomationView),
    Physics(PhysicsAutomationView),
}

/// Something that moves parameters by itself.
#[derive(Debug)]
pub enum Automation {
    Sine(SineAutomation),
    Physics(PhysicsAutomation),
}

impl View for Automation {
    type V = AutomationView;

    open spec fn view(&self) -> AutomationView {
        match self {
            Automation::Sine(a) => AutomationView::Sine(a@),
            Automation::Physics(a) => AutomationView::Physics(a@),
        }
    }
}

impl DeepView for Automation {
    type V = AutomationView;

    open spec fn deep_view(&self) -> AutomationView {
        self@
    }
}

impl Automation {
    /// What this automation shares with every automation.
    pub fn base(&self) -> (r: &AutomationBase)
        ensures
            r@ == match self@ {
                AutomationView::Sine(a) => a.automation,
                AutomationView::Physics(a) => a.automation,
            },
    {
        match self {
            Automation::Sine(a) => a.base(),
            Automation::Physics(a) => a.base(),
        }
    }
}

impl core::ops::Deref for Automation {
    type Target = AutomationBase;

    fn deref(&self) -> (r: &AutomationBase)
        ensures
            r@ == match self@ {
                AutomationView::Sine(a) => a.automation,
                AutomationView::Physics(a) => a.automation,
            },
    {
        self.base()
    }
}

impl core::ops::DerefMut for Automation {
    fn deref_mut(&mut self) -> (r: &mut AutomationBase)
        ensures
            r@ == match old(self)@ {
                AutomationView::Sine(a) => a.automation,
                AutomationView::Physics(a) => a.automation,
            },
            final(self)@ == match old(self)@ {
                AutomationView::Sine(a) => AutomationView::Sine(
                    SineAutomationView { automation: final(r)@, ..a },
                ),
                AutomationView::Physics(a) => AutomationView::Physics(
                    PhysicsAutomationView { automation: final(r)@, ..a },
                ),
            },
    {
        match self {
            Automation::Sine(a) => a.base_mut(),
            Automation::Physics(a) => a.base_mut(),
        }
    }
}

impl From<SineAutomation> for Automation {
    fn from(a: SineAutomation) -> (r: Automation) {
        Automation::Sine(a)
    }
}

impl vstd::std_specs::convert::FromSpecImpl<SineAutomation> for Automation {
    open spec fn obeys_from_spec() -> bool {
        true
    }

    open spec fn from_spec(a: SineAutomation) -> Automation {
        Automation::Sine(a)
    }
}

impl From<PhysicsAutomation> for Automation {
    fn from(a: PhysicsAutomation) -> (r: Automation) {
        Automation::Physics(a)
    }
}

impl vstd::std_specs::convert::FromSpecImpl<PhysicsAutomation> for Automation {
    open spec fn obeys_from_spec() -> bool {
        true
    }

    open spec fn from_spec(a: PhysicsAutomation) -> Automation {
        Automation::Physics(a)
    }
}

} // verus!
