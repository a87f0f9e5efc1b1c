use vstd::prelude::*;

use crate::policy::ScrollPolicy;

verus! {

/// Id under which the horizontal adjustment property is registered.
pub const HADJUSTMENT_ID: usize = 1;

/// Id under which the vertical adjustment property is registered.
pub const VADJUSTMENT_ID: usize = 2;

/// Id under which the horizontal scroll policy property is registered.
pub const HSCROLL_POLICY_ID: usize = 3;

/// Id under which the vertical scroll policy property is registered.
pub const VSCROLL_POLICY_ID: usize = 4;

/// True of exactly the ids under which the four scrollable properties are
/// registered.
pub open spec fn is_property_id(id: usize) -> bool {
    ||| id == HADJUSTMENT_ID
    ||| id == VADJUSTMENT_ID
    ||| id == HSCROLL_POLICY_ID
    ||| id == VSCROLL_POLICY_ID
}

/// The name under which the property with id `id` stands in the toolkit's
/// scrollable interface.
pub open spec fn spec_property_name(id: usize) -> Seq<char>
    recommends
        is_property_id(id),
{
    if id == HADJUSTMENT_ID {
        "hadjustment"@
    } else if id == VADJUSTMENT_ID {
        "vadjustment"@
    } else if id == HSCROLL_POLICY_ID {
        "hscroll-policy"@
    } else {
        "vscroll-policy"@
    }
}

/// The table the widget class registers its property overrides from: each of
/// the four ids is bound to the matching name of the toolkit's scrollable
/// interface, and no other id is bound at all.
pub fn property_name(id: usize) -> (r: Option<&'static str>)
    ensures
        is_property_id(id) ==> (r matches Some(s) && s@ == spec_property_name(id)),
        !is_property_id(id) ==> r is None,
{
    if id == HADJUSTMENT_ID {
        Some("hadjustment")
    } else if id == VADJUSTMENT_ID {
        Some("vadjustment")
    } else if id == HSCROLL_POLICY_ID {
        Some("hscroll-policy")
    } else if id == VSCROLL_POLICY_ID {
        Some("vscroll-policy")
    } else {
        None
    }
}

/// A value carried into or out of one of the scrollable properties.
///
/// An adjustment property holds an optional handle of the caller's type `A`;
/// a policy property holds a [`ScrollPolicy`].
#[derive(Clone, Debug, PartialEq, Eq)]
pub enum PropertyValue<A> {
    Adjustment(Option<A>),
    Policy(ScrollPolicy),
}

/// True when `value` is of the kind that the property registered under `id`
/// holds: an adjustment handle for the two adjustment ids, a policy for the
/// two policy ids.
pub open spec fn value_fits<A>(id: usize, value: PropertyValue<A>) -> bool {
    ||| (id == HADJUSTMENT_ID || id == VADJUSTMENT_ID) && value is Adjustment
    ||| (id == HSCROLL_POLICY_ID || id == VSCROLL_POLICY_ID) && value is Policy
}

/// `b` reads `a` back: policies are equal, and an adjustment handle comes
/// back either as the same handle or as a clone of it.
pub open spec fn value_read_back<A: Clone>(a: PropertyValue<A>, b: PropertyValue<A>) -> bool {
    match a {
        PropertyValue::Adjustment(x) => b matches PropertyValue::Adjustment(y) && handle_read_back(
            x,
            y,
        ),
        PropertyValue::Policy(p) => b == PropertyValue::<A>::Policy(p),
    }
}

/// `b` reads `a` back: `None` stays `None`, and a present handle comes back
/// either as the same handle or as a clone of it.
pub open spec fn handle_read_back<A: Clone>(a: Option<A>, b: Option<A>) -> bool {
    match a {
        Some(x) => b matches Some(y) && cloned(x, y),
        None => b is None,
    }
}

/// The four fields a scrollable widget keeps for the toolkit's interface
/// contract: the adjustment shared with each scrollbar controller, and the
/// policy for each axis. The toolkit addresses them by the ids above.
pub struct ScrollableState<A> {
    /// Adjustment shared between the widget and its horizontal controller.
    pub hadjustment: Option<A>,
    /// Adjustment shared between the widget and its vertical controller.
    pub vadjustment: Option<A>,
    /// How the content's width is determined.
    pub hscroll_policy: ScrollPolicy,
    /// How the content's height is determined.
    pub vscroll_policy: ScrollPolicy,
}

impl<A> ScrollableState<A> {
    /// The value the property registered under `id` holds, as a value of its
    /// kind.
    pub open spec fn read_property(self, id: usize) -> PropertyValue<A>
        recommends
            is_property_id(id),
    {
        if id == HADJUSTMENT_ID {
            PropertyValue::Adjustment(self.hadjustment)
        } else if id == VADJUSTMENT_ID {
            PropertyValue::Adjustment(self.vadjustment)
        } else if id == HSCROLL_POLICY_ID {
            PropertyValue::Policy(self.hscroll_policy)
        } else {
            PropertyValue::Policy(self.vscroll_policy)
        }
    }

    /// The state after `value` is written to the property registered under
    /// `id`, the other three fields kept.
    pub open spec fn with_property(self, id: usize, value: PropertyValue<A>) -> Self
        recommends
            is_property_id(id),
            value_fits(id, value),
    {
        match value {
            PropertyValue::Adjustment(a) => {
                if id == HADJUSTMENT_ID {
                    ScrollableState { hadjustment: a, ..self }
                } else {
                    ScrollableState { vadjustment: a, ..self }
                }
            },
            PropertyValue::Policy(p) => {
                if id == HSCROLL_POLICY_ID {
                    ScrollableState { hscroll_policy: p, ..self }
                } else {
                    ScrollableState { vscroll_policy: p, ..self }
                }
            },
        }
    }

    /// Builds the state a fresh widget starts with: no adjustment on either
    /// axis, and the minimum policy on both.
    pub fn new() -> (s: Self)
        ensures
            s.hadjustment is None,
            s.vadjustment is None,
            s.hscroll_policy == ScrollPolicy::Minimum,
            s.vscroll_policy == ScrollPolicy::Minimum,
    {
        ScrollableState {
            hadjustment: None,
            vadjustment: None,
            hscroll_policy: ScrollPolicy::Minimum,
            vscroll_policy: ScrollPolicy::Minimum,
        }
    }

    /// Stores `value` in the field registered under `id` and leaves the other
    /// three fields alone.
    ///
    /// The toolkit dispatches writes by id with no validation of its own, so
    /// an id outside the table, or a value of the wrong kind for its id, is a
    /// caller's error and is ruled out here rather than handled.
    pub fn set_property(&mut self, id: usize, value: PropertyValue<A>)
        requires
            is_property_id(id),
            value_fits(id, value),
        ensures
            *final(self) == old(self).with_property(id, value),
    {
        match value {
            PropertyValue::Adjustment(a) => {
                if id == HADJUSTMENT_ID {
                    self.hadjustment = a;
                } else {
                    self.vadjustment = a;
                }
            },
            PropertyValue::Policy(p) => {
                if id == HSCROLL_POLICY_ID {
                    self.hscroll_policy = p;
                } else {
                    self.vscroll_policy = p;
                }
            },
        }
    }
}

impl<A: Clone> ScrollableState<A> {
    /// Reads the property registered under `id` back, as a value of its kind.
    /// A read never fails on a registered id: the result is `Ok`, holds the
    /// policy last written, or the adjustment handle last written (possibly
    /// as a clone of it).
    pub fn get_property(&self, id: usize) -> (r: Result<PropertyValue<A>, ()>)
        requires
            is_property_id(id),
        ensures
            r matches Ok(v) && value_read_back(self.read_property(id), v),
    {
        if id == HADJUSTMENT_ID {
            Ok(PropertyValue::Adjustment(self.hadjustment.clone()))
        } else if id == VADJUSTMENT_ID {
            Ok(PropertyValue::Adjustment(self.vadjustment.clone()))
        } else if id == HSCROLL_POLICY_ID {
            Ok(PropertyValue::Policy(self.hscroll_policy))
        } else {
            Ok(PropertyValue::Policy(self.vscroll_policy))
        }
    }
}

/// The widget class registers the four scrollable interface properties under
/// the ids above: writing one and then reading it gives back exactly the
/// value written, and every other property is unchanged. This is the whole of
/// the store's behaviour: a field holds the last value written to it.
pub proof fn lemma_last_write_wins<A>(
    s: ScrollableState<A>,
    id: usize,
    value: PropertyValue<A>,
    other: usize,
)
    requires
        is_property_id(id),
        value_fits(id, value),
        is_property_id(other),
        other != id,
    ensures
        s.with_property(id, value).read_property(id) == value,
        s.with_property(id, value).read_property(other) == s.read_property(other),
{
}

} // verus!
