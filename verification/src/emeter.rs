//! Reconciling the two unit conventions of the energy meter.
//!
//! Plugs of the first hardware revision report `voltage`, `current`, `power`
//! and `total` in base units; plugs of the second report `voltage_mv`,
//! `current_ma`, `power_mw` and `total_wh` in thousandths. So that a caller
//! need not know which revision answered, a reading is completed: a quantity
//! that came under one name only is also given under the other.
use crate::json::{json_tree, member, set_member, value_member, with_member, JsonTree};
use serde_json::Value;
use vstd::prelude::*;

verus! {

/// A quantity that the meter reports.
#[derive(Debug, Clone, Copy, PartialEq, Eq, Structural)]
pub enum Quantity {
    Voltage,
    Current,
    Power,
    Total,
}

/// How a derived number relates to the one it is derived from.
#[derive(Debug, Clone, Copy, PartialEq, Eq, Structural)]
pub enum Scale {
    /// A thousandth of the source: from thousandths to base units.
    Thousandth,
    /// A thousand times the source: from base units to thousandths.
    Thousandfold,
}

impl Quantity {
    /// The name under which the quantity is reported in base units.
    pub open spec fn base_name(self) -> Seq<char> {
        match self {
            Quantity::Voltage => "voltage"@,
            Quantity::Current => "current"@,
            Quantity::Power => "power"@,
            Quantity::Total => "total"@,
        }
    }

    /// The name under which the quantity is reported in thousandths.
    pub open spec fn milli_name(self) -> Seq<char> {
        match self {
            Quantity::Voltage => "voltage_mv"@,
            Quantity::Current => "current_ma"@,
            Quantity::Power => "power_mw"@,
            Quantity::Total => "total_wh"@,
        }
    }

    /// The name under which the quantity is reported in base units.
    pub fn base(self) -> (name: &'static str)
        ensures
            name@ == self.base_name(),
    {
        match self {
            Quantity::Voltage => "voltage",
            Quantity::Current => "current",
            Quantity::Power => "power",
            Quantity::Total => "total",
        }
    }

    /// The name under which the quantity is reported in thousandths.
    pub fn milli(self) -> (name: &'static str)
        ensures
            name@ == self.milli_name(),
    {
        match self {
            Quantity::Voltage => "voltage_mv",
            Quantity::Current => "current_ma",
            Quantity::Power => "power_mw",
            Quantity::Total => "total_wh",
        }
    }
}

/// Whether `derived` is a document that `scale` can make of `source`.
pub open spec fn derived_by<F: Fn(&Value, Scale) -> Value>(
    scale: F,
    source: JsonTree,
    by: Scale,
    derived: JsonTree,
) -> bool {
    exists|from: Value, to: Value|
        json_tree(from) == source && #[trigger] scale.ensures((&from, by), to) && json_tree(to)
            == derived
}

/// What one derivation does to a reading: where `source` is there and
/// `target` is not, `target` is added with a value that `scale` makes of the
/// source; otherwise nothing changes.
pub open spec fn derivation_applied<F: Fn(&Value, Scale) -> Value>(
    before: JsonTree,
    after: JsonTree,
    source: Seq<char>,
    target: Seq<char>,
    by: Scale,
    scale: F,
) -> bool {
    if member(before, source) is Some && member(before, target) is None {
        exists|derived: JsonTree|
            #[trigger] derived_by(scale, member(before, source)->0, by, derived) && after
                == with_member(before, target, derived)
    } else {
        after == before
    }
}

/// Whether `key` is one of the two names of `quantity`.
pub open spec fn names(key: Seq<char>, quantity: Quantity) -> bool {
    key == quantity.base_name() || key == quantity.milli_name()
}

/// Whether `key` is one of the eight names under which the meter reports.
pub open spec fn is_meter_name(key: Seq<char>) -> bool {
    names(key, Quantity::Voltage) || names(key, Quantity::Current) || names(key, Quantity::Power)
        || names(key, Quantity::Total)
}

/// What completing a reading does to one quantity. Where the quantity came in
/// thousandths only, its base-unit name is added, a thousandth of it; where it
/// came in base units only, its name for thousandths is added, a thousand
/// times it; where it came under both names or under neither, neither name is
/// added.
pub open spec fn quantity_reconciled<F: Fn(&Value, Scale) -> Value>(
    before: JsonTree,
    after: JsonTree,
    quantity: Quantity,
    scale: F,
) -> bool {
    let base = quantity.base_name();
    let milli = quantity.milli_name();
    if member(before, milli) is Some && member(before, base) is None {
        member(after, base) is Some && derived_by(
            scale,
            member(before, milli)->0,
            Scale::Thousandth,
            member(after, base)->0,
        )
    } else if member(before, base) is Some && member(before, milli) is None {
        member(after, milli) is Some && derived_by(
            scale,
            member(before, base)->0,
            Scale::Thousandfold,
            member(after, milli)->0,
        )
    } else {
        member(after, base) == member(before, base) && member(after, milli) == member(
            before,
            milli,
        )
    }
}

/// What completing a reading does to it. A reading that is no object stays as
/// it is. In an object every member that was there stays, with its value;
/// members are added under the meter's names only; and each quantity is
/// completed by itself, whatever holds of the others.
pub open spec fn reconciled<F: Fn(&Value, Scale) -> Value>(
    before: JsonTree,
    after: JsonTree,
    scale: F,
) -> bool {
    &&& before is Object <==> after is Object
    &&& !(before is Object) ==> after == before
    &&& forall|key: Seq<char>| #[trigger]
        member(before, key) is Some ==> member(after, key) == member(before, key)
    &&& forall|key: Seq<char>|
        member(before, key) is None && #[trigger] member(after, key) is Some ==> is_meter_name(
            key,
        )
    &&& forall|quantity: Quantity| #[trigger]
        quantity_reconciled(before, after, quantity, scale)
}

/// The eight names under which the meter reports differ from each other.
pub proof fn lemma_meter_names_differ()
    ensures
        forall|p: Quantity, q: Quantity| #[trigger]
            p.base_name() != #[trigger] q.milli_name(),
        forall|p: Quantity, q: Quantity|
            p != q ==> #[trigger] p.base_name() != #[trigger] q.base_name(),
        forall|p: Quantity, q: Quantity|
            p != q ==> #[trigger] p.milli_name() != #[trigger] q.milli_name(),
{
    reveal_strlit("voltage");
    reveal_strlit("current");
    reveal_strlit("power");
    reveal_strlit("total");
    reveal_strlit("voltage_mv");
    reveal_strlit("current_ma");
    reveal_strlit("power_mw");
    reveal_strlit("total_wh");
    assert("voltage"@.len() == 7 && "voltage"@[0] == 'v');
    assert("current"@.len() == 7 && "current"@[0] == 'c');
    assert("power"@.len() == 5 && "power"@[0] == 'p');
    assert("total"@.len() == 5 && "total"@[0] == 't');
    assert("voltage_mv"@.len() == 10 && "voltage_mv"@[0] == 'v');
    assert("current_ma"@.len() == 10 && "current_ma"@[0] == 'c');
    assert("power_mw"@.len() == 8 && "power_mw"@[0] == 'p');
    assert("total_wh"@.len() == 8 && "total_wh"@[0] == 't');
}

/// In a completed reading every quantity stands under both of its names or
/// under neither, and a quantity that the device reported under both names
/// has the values that the device gave it.
pub proof fn lemma_reconciled_is_complete<F: Fn(&Value, Scale) -> Value>(
    before: JsonTree,
    after: JsonTree,
    scale: F,
    quantity: Quantity,
)
    requires
        reconciled(before, after, scale),
    ensures
        member(after, quantity.base_name()) is Some <==> member(after, quantity.milli_name())
            is Some,
        member(before, quantity.base_name()) is Some || member(before, quantity.milli_name())
            is Some ==> member(after, quantity.base_name()) is Some && member(
            after,
            quantity.milli_name(),
        ) is Some,
        member(before, quantity.base_name()) is Some && member(before, quantity.milli_name())
            is Some ==> member(after, quantity.base_name()) == member(
            before,
            quantity.base_name(),
        ) && member(after, quantity.milli_name()) == member(before, quantity.milli_name()),
{
    assert(quantity_reconciled(before, after, quantity, scale));
}

/// Completing a completed reading changes nothing, whatever the arithmetic.
pub proof fn lemma_reconciled_twice<F: Fn(&Value, Scale) -> Value, G: Fn(&Value, Scale) -> Value>(
    before: JsonTree,
    once: JsonTree,
    twice: JsonTree,
    first: F,
    second: G,
)
    requires
        reconciled(before, once, first),
        reconciled(once, twice, second),
    ensures
        twice == once,
{
    if once is Object {
        assert forall|key: Seq<char>| member(twice, key) == member(once, key) by {
            if member(once, key) is None && member(twice, key) is Some {
                assert(is_meter_name(key));
                let quantity = if names(key, Quantity::Voltage) {
                    Quantity::Voltage
                } else if names(key, Quantity::Current) {
                    Quantity::Current
                } else if names(key, Quantity::Power) {
                    Quantity::Power
                } else {
                    Quantity::Total
                };
                lemma_reconciled_is_complete(before, once, first, quantity);
                assert(quantity_reconciled(once, twice, quantity, second));
            }
        }
        let a = once->Object_0;
        let b = twice->Object_0;
        assert forall|key: Seq<char>| a.dom().contains(key) == b.dom().contains(key) by {
            assert(member(twice, key) == member(once, key));
        }
        assert(a.dom() =~= b.dom());
        assert forall|key: Seq<char>| a.dom().contains(key) implies a[key] == b[key] by {
            assert(member(twice, key) == member(once, key));
        }
        assert(a =~= b);
    }
}

/// Adds `target` to `readings`, scaled from `source`, where `source` is there
/// and `target` is not.
fn derive<F: Fn(&Value, Scale) -> Value>(
    readings: &mut Value,
    source: &'static str,
    target: &'static str,
    by: Scale,
    scale: &F,
)
    requires
        forall|from: &Value, by: Scale| scale.requires((from, by)),
    ensures
        derivation_applied(
            json_tree(*old(readings)),
            json_tree(*final(readings)),
            source@,
            target@,
            by,
            scale,
        ),
{
    let derived = match value_member(readings, source) {
        None => {
            return ;
        },
        Some(found) => {
            if value_member(readings, target).is_some() {
                return ;
            }
            scale(found, by)
        },
    };
    proof {
        assert(derived_by(
            scale,
            member(json_tree(*readings), source@)->0,
            by,
            json_tree(derived),
        ));
    }
    set_member(readings, target, derived);
}

/// Completes a meter reading: every quantity that the device reported under
/// one of its two names only is added under the other, scaled by `scale` from
/// the one that is there. Nothing that the device sent is changed, and a
/// quantity that is missing altogether does not keep the others from being
/// completed. The arithmetic is the caller's: `scale` is handed the reported
/// value and the direction, and returns the derived value.
pub fn reconcile<F: Fn(&Value, Scale) -> Value>(readings: &mut Value, scale: &F)
    requires
        forall|from: &Value, by: Scale| scale.requires((from, by)),
    ensures
        reconciled(json_tree(*old(readings)), json_tree(*final(readings)), scale),
{
    let voltage = Quantity::Voltage;
    let current = Quantity::Current;
    let power = Quantity::Power;
    let total = Quantity::Total;
    derive(readings, voltage.milli(), voltage.base(), Scale::Thousandth, scale);
    derive(readings, current.milli(), current.base(), Scale::Thousandth, scale);
    derive(readings, power.milli(), power.base(), Scale::Thousandth, scale);
    derive(readings, total.milli(), total.base(), Scale::Thousandth, scale);
    derive(readings, voltage.base(), voltage.milli(), Scale::Thousandfold, scale);
    derive(readings, current.base(), current.milli(), Scale::Thousandfold, scale);
    derive(readings, power.base(), power.milli(), Scale::Thousandfold, scale);
    derive(readings, total.base(), total.milli(), Scale::Thousandfold, scale);
    proof {
        lemma_meter_names_differ();
    }
}

} // verus!
