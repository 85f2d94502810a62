//! The parts of the zigbee2mqtt device model that the bridge logic reads.

use vstd::prelude::*;

use crate::text::{opt_chars, str_eq};

verus! {

/// A feature with on/off values.
#[derive(Clone, Debug)]
pub struct ExposeBinary {
    pub name: Option<String>,
}

/// A feature made of sub-features (such as a colour).
#[derive(Debug)]
pub struct ExposeComposite {
    pub name: Option<String>,
    pub features: Vec<Expose>,
}

/// A feature with a fixed set of values.
#[derive(Clone, Debug)]
pub struct ExposeEnum {
    pub name: Option<String>,
}

/// The features of a light.
#[derive(Debug)]
pub struct ExposeLight {
    pub features: Vec<Expose>,
}

/// A feature whose value is a list (such as a gradient).
#[derive(Clone, Debug)]
pub struct ExposeList {
    pub name: Option<String>,
    pub length_min: Option<u32>,
    pub length_max: Option<u32>,
}

/// A feature with a numeric value.
///
/// `value_min` and `value_max` are the bounds the device reports, held as
/// whole numbers.
#[derive(Clone, Debug)]
pub struct ExposeNumeric {
    pub name: Option<String>,
    pub unit: Option<String>,
    pub value_min: Option<u32>,
    pub value_max: Option<u32>,
}

/// A switch.
#[derive(Debug)]
pub struct ExposeSwitch {
    pub features: Vec<Expose>,
}

/// A feature with a text value.
#[derive(Clone, Debug)]
pub struct ExposeText {
    pub name: Option<String>,
}

/// One exposed capability of a device.
#[derive(Debug)]
pub enum Expose {
    Binary(ExposeBinary),
    Composite(ExposeComposite),
    Enum(ExposeEnum),
    Light(ExposeLight),
    List(ExposeList),
    Numeric(ExposeNumeric),
    Switch(ExposeSwitch),
    Text(ExposeText),
}

impl Expose {
    /// The name of a named feature.
    pub open spec fn spec_name(&self) -> Option<Seq<char>> {
        match self {
            Expose::Binary(e) => opt_chars(e.name),
            Expose::Composite(e) => opt_chars(e.name),
            Expose::Enum(e) => opt_chars(e.name),
            Expose::List(e) => opt_chars(e.name),
            Expose::Numeric(e) => opt_chars(e.name),
            Expose::Text(e) => opt_chars(e.name),
            Expose::Light(_) | Expose::Switch(_) => None,
        }
    }

    /// The name of a named feature.
    pub fn name(&self) -> (r: Option<&String>)
        ensures
            match r {
                Some(n) => self.spec_name() == Some(n@),
                None => self.spec_name() is None,
            },
    {
        match self {
            Expose::Binary(e) => e.name.as_ref(),
            Expose::Composite(e) => e.name.as_ref(),
            Expose::Enum(e) => e.name.as_ref(),
            Expose::List(e) => e.name.as_ref(),
            Expose::Numeric(e) => e.name.as_ref(),
            Expose::Text(e) => e.name.as_ref(),
            Expose::Light(_) | Expose::Switch(_) => None,
        }
    }

    /// Whether this feature is named `name`.
    pub fn has_name(&self, name: &str) -> (r: bool)
        ensures
            r == (self.spec_name() == Some(name@)),
    {
        match self.name() {
            Some(n) => str_eq(n.as_str(), name),
            None => false,
        }
    }
}

/// The index of the first of `s` that satisfies `p`, if there is one.
pub open spec fn first_index(s: Seq<Expose>, p: spec_fn(Expose) -> bool) -> Option<int> {
    if exists|i: int| 0 <= i < s.len() && p(s[i]) {
        Some(choose|i: int| 0 <= i < s.len() && p(s[i]) && forall|j: int| 0 <= j < i ==> !p(s[j]))
    } else {
        None
    }
}

/// The first index satisfying a predicate is unique.
pub proof fn lemma_first_index(s: Seq<Expose>, p: spec_fn(Expose) -> bool, k: int)
    requires
        0 <= k < s.len(),
        p(s[k]),
        forall|j: int| 0 <= j < k ==> !p(s[j]),
    ensures
        first_index(s, p) == Some(k),
{
    let w = choose|i: int| 0 <= i < s.len() && p(s[i]) && forall|j: int| 0 <= j < i ==> !p(s[j]);
    assert(0 <= w < s.len() && p(s[w]) && forall|j: int| 0 <= j < w ==> !p(s[j]));
    if w > k {
        assert(!p(s[k]));
    }
}

/// Whether a feature is named `name`.
pub open spec fn named(name: Seq<char>) -> spec_fn(Expose) -> bool {
    |e: Expose| e.spec_name() == Some(name)
}

/// The first of `features` named `name`.
pub open spec fn spec_feature(features: Seq<Expose>, name: Seq<char>) -> Option<Expose> {
    match first_index(features, named(name)) {
        Some(k) => Some(features[k]),
        None => None,
    }
}

impl ExposeLight {
    /// The first feature of this light named `name`.
    pub fn feature(&self, name: &str) -> (r: Option<&Expose>)
        ensures
            match r {
                Some(e) => spec_feature(self.features@, name@) == Some(*e),
                None => spec_feature(self.features@, name@) is None,
            },
    {
        let mut i: usize = 0;
        while i < self.features.len()
            invariant
                i <= self.features@.len(),
                forall|j: int| 0 <= j < i ==> !named(name@)(self.features@[j]),
            decreases self.features@.len() - i,
        {
            if self.features[i].has_name(name) {
                proof {
                    lemma_first_index(self.features@, named(name@), i as int);
                }
                return Some(&self.features[i]);
            }
            i = i + 1;
        }
        None
    }
}

/// The model definition zigbee2mqtt matched a device to.
#[derive(Clone, Debug)]
pub struct Definition {
    pub model: String,
    pub vendor: String,
}

/// A device known to zigbee2mqtt.
#[derive(Debug)]
pub struct Device {
    pub friendly_name: String,
    pub ieee_address: String,
    pub manufacturer: Option<String>,
    pub model_id: Option<String>,
    pub software_build_id: Option<String>,
    pub definition: Option<Definition>,
    pub exposes: Vec<Expose>,
}

/// Whether `e` is the list feature named "gradient".
pub open spec fn is_gradient_list(e: Expose) -> bool {
    e is List && e.spec_name() == Some("gradient"@)
}

/// The first gradient list among `exposes`.
pub open spec fn spec_first_gradient(exposes: Seq<Expose>) -> Option<ExposeList> {
    match first_index(exposes, |e: Expose| is_gradient_list(e)) {
        Some(k) => match exposes[k] {
            Expose::List(l) => Some(l),
            _ => None,
        },
        None => None,
    }
}

impl Device {
    /// The first of this device's exposed features that is a gradient list.
    pub fn expose_gradient(&self) -> (r: Option<&ExposeList>)
        ensures
            match r {
                Some(l) => spec_first_gradient(self.exposes@) == Some(*l),
                None => spec_first_gradient(self.exposes@) is None,
            },
    {
        let ghost p = |e: Expose| is_gradient_list(e);
        let mut i: usize = 0;
        while i < self.exposes.len()
            invariant
                i <= self.exposes@.len(),
                p == (|e: Expose| is_gradient_list(e)),
                forall|j: int| 0 <= j < i ==> !p(self.exposes@[j]),
            decreases self.exposes@.len() - i,
        {
            let e = &self.exposes[i];
            if let Expose::List(l) = e {
                if e.has_name("gradient") {
                    proof {
                        lemma_first_index(self.exposes@, p, i as int);
                    }
                    return Some(l);
                }
            }
            i = i + 1;
        }
        None
    }
}

/// A member device of a group.
#[derive(Clone, Debug)]
pub struct GroupMember {
    pub ieee_address: String,
    pub endpoint: u32,
}

/// A scene stored in a group.
#[derive(Clone, Debug)]
pub struct GroupScene {
    pub id: u32,
    pub name: String,
}

/// A group of devices known to zigbee2mqtt.
#[derive(Clone, Debug)]
pub struct Group {
    pub friendly_name: String,
    pub id: u32,
    pub members: Vec<GroupMember>,
    pub scenes: Vec<GroupScene>,
}

/// The colour mode a zigbee2mqtt light reports its state in.
#[derive(Clone, Copy, Debug, PartialEq, Eq, Structural)]
pub enum DeviceColorMode {
    ColorTemp,
    Xy,
    Hs,
}

/// Whether a device state in colour mode `mode` passes its xy colour on to a
/// Hue light update: in every mode but colour temperature.
pub fn passes_color_xy(mode: Option<DeviceColorMode>) -> (r: bool)
    ensures
        r == (mode != Some(DeviceColorMode::ColorTemp)),
{
    match mode {
        Some(DeviceColorMode::ColorTemp) => false,
        _ => true,
    }
}

} // verus!
