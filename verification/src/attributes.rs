//! Actor updates: named, tagged attribute values.
//!
//! An actor update is a snapshot of the attributes currently known for one
//! actor, as a list of name/value pairs. The replay decoder hands such
//! updates to the orchestrator one actor at a time; the handlers in this
//! crate only read them. Vector components arrive from the decoder as IEEE
//! 754 single-precision values; this crate never does arithmetic on them, so
//! it carries each component as its 32-bit pattern.

use vstd::prelude::*;

verus! {

/// The tagged values this library distinguishes. Every tag the handlers do
/// not inspect is carried as `Other`, which the decoders treat exactly like
/// a missing attribute.
#[derive(Clone, Copy, Debug, PartialEq, Eq, Structural)]
pub enum AttributeValue {
    /// A reference to another actor, e.g. the car a component is attached to.
    ActiveActor { active: bool, actor: i32 },
    /// A byte-valued flag; activity flags are parity-encoded toggle counters.
    Byte(u8),
    /// A three-component vector; each component is the bit pattern of an
    /// IEEE 754 single-precision value.
    Location { x_bits: u32, y_bits: u32, z_bits: u32 },
    /// Any attribute tag the handlers never inspect.
    Other,
}

/// One named attribute of an actor update.
#[derive(Clone, Debug)]
pub struct AttributeEntry {
    pub name: String,
    pub value: AttributeValue,
}

/// A per-frame snapshot of one actor's attributes: name/value pairs, looked
/// up by name, first match winning.
#[derive(Clone, Debug)]
pub struct ActorSnapshot {
    pub attributes: Vec<AttributeEntry>,
}

/// The value of the first entry of `attrs` named `name`, from index `i` on.
pub open spec fn lookup_attribute_from(
    attrs: Seq<AttributeEntry>,
    i: int,
    name: Seq<char>,
) -> Option<AttributeValue>
    decreases attrs.len() - i,
    when 0 <= i
{
    if i >= attrs.len() {
        None
    } else if attrs[i].name@ == name {
        Some(attrs[i].value)
    } else {
        lookup_attribute_from(attrs, i + 1, name)
    }
}

/// The value of the first entry of `attrs` named `name`, if any.
pub open spec fn lookup_attribute(attrs: Seq<AttributeEntry>, name: Seq<char>) -> Option<
    AttributeValue,
> {
    lookup_attribute_from(attrs, 0, name)
}

impl ActorSnapshot {
    /// An update with no attributes.
    pub fn new() -> (s: Self)
        ensures
            s.attributes@ == Seq::<AttributeEntry>::empty(),
    {
        ActorSnapshot { attributes: Vec::new() }
    }

    /// Append one named attribute to the update.
    pub fn push_attribute(&mut self, name: String, value: AttributeValue)
        ensures
            final(self).attributes@ == old(self).attributes@.push(
                AttributeEntry { name, value },
            ),
    {
        self.attributes.push(AttributeEntry { name, value });
    }

    /// The value stored under `name`, if the update has one.
    pub fn get_attribute(&self, name: &String) -> (r: Option<AttributeValue>)
        ensures
            r == lookup_attribute(self.attributes@, name@),
    {
        let n = self.attributes.len();
        let mut i: usize = 0;
        while i < n
            invariant
                0 <= i <= n,
                n == self.attributes@.len(),
                lookup_attribute(self.attributes@, name@) == lookup_attribute_from(
                    self.attributes@,
                    i as int,
                    name@,
                ),
            decreases n - i,
        {
            if self.attributes[i].name == *name {
                return Some(self.attributes[i].value);
            }
            i += 1;
        }
        None
    }
}

/// Name of the attribute that references the car a component is attached to.
pub open spec fn vehicle_attr_name() -> Seq<char> {
    "TAGame.CarComponent_TA:Vehicle"@
}

/// Name of the parity-encoded activity flag shared by all car components.
pub open spec fn active_attr_name() -> Seq<char> {
    "TAGame.CarComponent_TA:ReplicatedActive"@
}

/// Name of the torque vector reported by the dodge component. The double
/// jump component reports its torque under this same name; the shared
/// physical mechanism upstream reuses the attribute, and the decoders keep
/// that naming as the format defines it.
pub open spec fn torque_attr_name() -> Seq<char> {
    "TAGame.CarComponent_Dodge_TA:DodgeTorque"@
}

/// The vehicle-reference attribute name as an owned key.
pub fn vehicle_attr_key() -> (k: String)
    ensures
        k@ == vehicle_attr_name(),
{
    "TAGame.CarComponent_TA:Vehicle".to_owned()
}

/// The activity-flag attribute name as an owned key.
pub fn active_attr_key() -> (k: String)
    ensures
        k@ == active_attr_name(),
{
    "TAGame.CarComponent_TA:ReplicatedActive".to_owned()
}

/// The torque-vector attribute name as an owned key.
pub fn torque_attr_key() -> (k: String)
    ensures
        k@ == torque_attr_name(),
{
    "TAGame.CarComponent_Dodge_TA:DodgeTorque".to_owned()
}

} // verus!
