//! Rules on requests, reported in order: the first broken one is the answer.

use vstd::prelude::*;
use vstd::string::*;

use crate::error::{ErrorCode, NotificationError, NotificationResult};
use crate::text::{at_most_chars, decimal, decimal_text, optional_bounded, option_text,
    required_bounded, within};

verus! {

/// The message about a required field outside its bounds.
pub open spec fn length_message(field: Seq<char>, minimum: nat, maximum: nat) -> Seq<char> {
    field + " must contain between "@ + decimal_text(minimum) + " and "@ + decimal_text(maximum)
        + " characters"@
}

/// The message about an optional field over its bound.
pub open spec fn excess_message(field: Seq<char>, maximum: nat) -> Seq<char> {
    field + " must contain at most "@ + decimal_text(maximum) + " characters"@
}

/// What is wrong with a required field.
pub open spec fn required_fault(
    field: Seq<char>,
    value: Seq<char>,
    minimum: nat,
    maximum: nat,
) -> Option<Seq<char>> {
    if within(value, minimum, maximum) {
        None
    } else {
        Some(length_message(field, minimum, maximum))
    }
}

/// What is wrong with an optional field.
pub open spec fn optional_fault(field: Seq<char>, value: Option<String>, maximum: nat) -> Option<
    Seq<char>,
> {
    if at_most_chars(value, maximum) {
        None
    } else {
        Some(excess_message(field, maximum))
    }
}

/// What is wrong where `holds` does not.
pub open spec fn rule(holds: bool, message: Seq<char>) -> Option<Seq<char>> {
    if holds {
        None
    } else {
        Some(message)
    }
}

/// The first fault of a list.
pub open spec fn first_fault(faults: Seq<Option<Seq<char>>>) -> Option<Seq<char>>
    decreases faults.len(),
{
    if faults.len() == 0 {
        None
    } else if faults[0] is Some {
        faults[0]
    } else {
        first_fault(faults.drop_first())
    }
}

/// Looks at the faults of a list in order and keeps the first one.
pub(crate) struct FaultList {
    pub(crate) found: Option<String>,
    pub(crate) seen: Ghost<Seq<Option<Seq<char>>>>,
}

impl FaultList {
    pub(crate) open spec fn ok(self) -> bool {
        option_text(self.found) == first_fault(self.seen@)
    }

    pub(crate) fn empty() -> (list: Self)
        ensures
            list.ok(),
            list.seen@ == Seq::<Option<Seq<char>>>::empty(),
    {
        FaultList { found: None, seen: Ghost(Seq::empty()) }
    }

    pub(crate) fn note(&mut self, fault: Option<String>)
        requires
            old(self).ok(),
        ensures
            final(self).ok(),
            final(self).seen@ == old(self).seen@.push(option_text(fault)),
    {
        proof {
            lemma_first_fault_push(self.seen@, option_text(fault));
            self.seen@ = self.seen@.push(option_text(fault));
        }
        if self.found.is_none() {
            self.found = fault;
        }
    }

    pub(crate) fn required(&mut self, field: &str, value: &String, minimum: usize, maximum: usize)
        requires
            old(self).ok(),
        ensures
            final(self).ok(),
            final(self).seen@ == old(self).seen@.push(
                required_fault(field@, value@, minimum as nat, maximum as nat),
            ),
    {
        if required_bounded(value.as_str(), minimum, maximum) {
            self.note(None);
        } else {
            let mut message = field.to_owned();
            message.append(" must contain between ");
            message.append(decimal(minimum as u64).as_str());
            message.append(" and ");
            message.append(decimal(maximum as u64).as_str());
            message.append(" characters");
            self.note(Some(message));
        }
    }

    pub(crate) fn optional(&mut self, field: &str, value: &Option<String>, maximum: usize)
        requires
            old(self).ok(),
        ensures
            final(self).ok(),
            final(self).seen@ == old(self).seen@.push(
                optional_fault(field@, *value, maximum as nat),
            ),
    {
        if optional_bounded(value, maximum) {
            self.note(None);
        } else {
            let mut message = field.to_owned();
            message.append(" must contain at most ");
            message.append(decimal(maximum as u64).as_str());
            message.append(" characters");
            self.note(Some(message));
        }
    }

    pub(crate) fn rule(&mut self, holds: bool, message: &str)
        requires
            old(self).ok(),
        ensures
            final(self).ok(),
            final(self).seen@ == old(self).seen@.push(rule(holds, message@)),
    {
        if holds {
            self.note(None);
        } else {
            self.note(Some(message.to_owned()));
        }
    }

    pub(crate) fn verdict(self) -> (r: NotificationResult<()>)
        requires
            self.ok(),
        ensures
            accepts_unless(r, first_fault(self.seen@)),
    {
        match self.found {
            Some(message) => Err(NotificationError::new(ErrorCode::Validation, message.as_str())),
            None => Ok(()),
        }
    }
}

/// Appending a fault matters only where there was none.
pub proof fn lemma_first_fault_push(faults: Seq<Option<Seq<char>>>, fault: Option<Seq<char>>)
    ensures
        first_fault(faults.push(fault)) == (if first_fault(faults) is Some {
            first_fault(faults)
        } else {
            fault
        }),
    decreases faults.len(),
{
    if faults.len() > 0 {
        assert(faults.push(fault).drop_first() =~= faults.drop_first().push(fault));
        lemma_first_fault_push(faults.drop_first(), fault);
    } else {
        assert(faults.push(fault).drop_first() =~= Seq::<Option<Seq<char>>>::empty());
        assert(first_fault(faults.push(fault).drop_first()) is None);
    }
}

/// Success where there is no fault, and otherwise the validation failure with
/// the message of the fault.
pub open spec fn accepts_unless(r: NotificationResult<()>, fault: Option<Seq<char>>) -> bool {
    match fault {
        None => r is Ok,
        Some(message) => r matches Err(error) && error.is(ErrorCode::Validation, message),
    }
}

/// A list without a fault in it has no first fault.
pub proof fn lemma_no_fault(faults: Seq<Option<Seq<char>>>)
    requires
        forall|i: int| 0 <= i < faults.len() ==> #[trigger] faults[i] is None,
    ensures
        first_fault(faults) is None,
    decreases faults.len(),
{
    if faults.len() > 0 {
        assert(faults[0] is None);
        assert forall|i: int| 0 <= i < faults.drop_first().len() implies #[trigger] faults.drop_first()[i]
            is None by {
            assert(faults[i + 1] is None);
        }
        lemma_no_fault(faults.drop_first());
    }
}

/// A list without a first fault has no fault in it.
pub proof fn lemma_every_fault_is_found(faults: Seq<Option<Seq<char>>>)
    requires
        first_fault(faults) is None,
    ensures
        forall|i: int| 0 <= i < faults.len() ==> #[trigger] faults[i] is None,
    decreases faults.len(),
{
    if faults.len() > 0 {
        lemma_every_fault_is_found(faults.drop_first());
        assert forall|i: int| 0 <= i < faults.len() implies #[trigger] faults[i] is None by {
            if i > 0 {
                assert(faults.drop_first()[i - 1] is None);
            }
        }
    }
}

/// The first fault is the one that no other stands before.
pub proof fn lemma_first_fault_at(faults: Seq<Option<Seq<char>>>, at: int)
    requires
        0 <= at < faults.len(),
        faults[at] is Some,
        forall|i: int| 0 <= i < at ==> #[trigger] faults[i] is None,
    ensures
        first_fault(faults) == faults[at],
    decreases faults.len(),
{
    if at > 0 {
        assert(faults[0] is None);
        assert forall|i: int| 0 <= i < at - 1 implies #[trigger] faults.drop_first()[i] is None by {
            assert(faults[i + 1] is None);
        }
        lemma_first_fault_at(faults.drop_first(), at - 1);
    }
}

} // verus!
