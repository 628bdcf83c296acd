//! Which of the four fields of a record are known, and how what one
//! fragment holds is merged into what was known before.

use crate::error::{Field, ParseError};
use crate::food::FoodView;
use vstd::prelude::*;

verus! {

/// The four fields of one record, each known or not yet known.
pub struct Fields {
    pub description: Option<Seq<char>>,
    pub quantity: Option<u32>,
    pub calories: Option<u32>,
    pub proteins: Option<u32>,
}

impl Fields {
    /// Nothing known.
    pub open spec fn empty() -> Fields {
        Fields { description: None, quantity: None, calories: None, proteins: None }
    }

    /// Whether `field` is known.
    pub open spec fn has(self, field: Field) -> bool {
        match field {
            Field::Description => self.description is Some,
            Field::Quantity => self.quantity is Some,
            Field::Calories => self.calories is Some,
            Field::Proteins => self.proteins is Some,
        }
    }

    /// The known fields as a number: 1 for the description, 2 for the
    /// quantity, 4 for the calories and 8 for the proteins, added up.
    pub open spec fn mask(self) -> nat {
        (if self.description is Some { 1nat } else { 0nat })
        + (if self.quantity is Some { 2nat } else { 0nat })
        + (if self.calories is Some { 4nat } else { 0nat })
        + (if self.proteins is Some { 8nat } else { 0nat })
    }

    /// Whether all four fields are known.
    pub open spec fn is_complete(self) -> bool {
        self.mask() == 15
    }

    /// Whether exactly `field` is known.
    pub open spec fn holds_only(self, field: Field) -> bool {
        &&& self.description is Some <==> field == Field::Description
        &&& self.quantity is Some <==> field == Field::Quantity
        &&& self.calories is Some <==> field == Field::Calories
        &&& self.proteins is Some <==> field == Field::Proteins
    }

    /// The first field, in the order description, quantity, calories,
    /// proteins, that both `self` and `found` know.
    pub open spec fn collision(self, found: Fields) -> Option<Field> {
        if self.description is Some && found.description is Some {
            Some(Field::Description)
        } else if self.quantity is Some && found.quantity is Some {
            Some(Field::Quantity)
        } else if self.calories is Some && found.calories is Some {
            Some(Field::Calories)
        } else if self.proteins is Some && found.proteins is Some {
            Some(Field::Proteins)
        } else {
            None
        }
    }

    /// What is known once `found` is added: each field of `found` that is
    /// known, and the fields of `self` for the rest.
    pub open spec fn with(self, found: Fields) -> Fields {
        Fields {
            description: if found.description is Some {
                found.description
            } else {
                self.description
            },
            quantity: if found.quantity is Some {
                found.quantity
            } else {
                self.quantity
            },
            calories: if found.calories is Some {
                found.calories
            } else {
                self.calories
            },
            proteins: if found.proteins is Some {
                found.proteins
            } else {
                self.proteins
            },
        }
    }

    /// The record that four known fields make up.
    pub open spec fn record(self) -> FoodView
        recommends
            self.is_complete(),
    {
        FoodView {
            description: self.description->0,
            quantity: self.quantity->0,
            calories: self.calories->0,
            proteins: self.proteins->0,
        }
    }

    /// The first field of a complete record that is empty or zero.
    pub open spec fn defect(self) -> Option<Field>
        recommends
            self.is_complete(),
    {
        if self.description->0.len() == 0 {
            Some(Field::Description)
        } else if self.quantity->0 == 0 {
            Some(Field::Quantity)
        } else if self.calories->0 == 0 {
            Some(Field::Calories)
        } else if self.proteins->0 == 0 {
            Some(Field::Proteins)
        } else {
            None
        }
    }
}

/// What taking in the fields of one fragment leads to.
pub enum Step {
    /// The record is still incomplete; these fields are known now.
    Pending(Fields),
    /// The record became complete and valid; nothing is known any more.
    Emitted(FoodView),
    /// The fragment cannot be taken in.
    Rejected(ParseError),
}

/// Takes the fields `found` in one fragment into what is `known`.
///
/// A field that is known already is a duplicate. Else the fields are added,
/// and once all four are known they make a record, which must be valid.
pub open spec fn absorb(known: Fields, found: Fields) -> Step {
    let merged = known.with(found);
    if known.collision(found) is Some {
        Step::Rejected(ParseError::DuplicateField(known.collision(found)->0))
    } else if !merged.is_complete() {
        Step::Pending(merged)
    } else if merged.defect() is Some {
        Step::Rejected(ParseError::InvalidRecord(merged.defect()->0))
    } else {
        Step::Emitted(merged.record())
    }
}

/// A field that comes a second time before its record is complete is
/// rejected as a duplicate.
pub proof fn lemma_repeated_field_is_duplicate(
    known: Fields,
    first: Fields,
    second: Fields,
    field: Field,
)
    requires
        first.has(field),
        second.has(field),
        absorb(known, first) is Pending,
    ensures
        absorb(absorb(known, first)->Pending_0, second) matches Step::Rejected(
            ParseError::DuplicateField(_),
        ),
        second.holds_only(field) ==> absorb(absorb(known, first)->Pending_0, second)
            == Step::Rejected(ParseError::DuplicateField(field)),
{
}

/// A record whose four fields are known is not emitted while one of them is
/// empty or zero.
pub proof fn lemma_complete_record_is_validated(known: Fields, found: Fields)
    requires
        known.collision(found) is None,
        known.with(found).is_complete(),
    ensures
        !known.with(found).record().is_valid() ==> absorb(known, found) matches Step::Rejected(
            ParseError::InvalidRecord(_),
        ),
        known.with(found).record().is_valid() ==> absorb(known, found) == Step::Emitted(
            known.with(found).record(),
        ),
        known.with(found).quantity == Some(0u32) && known.with(found).description->0.len() > 0
            ==> absorb(known, found) == Step::Rejected(
            ParseError::InvalidRecord(Field::Quantity),
        ),
{
}

/// No step leaves a complete record behind: what is pending lacks a field.
pub proof fn lemma_pending_is_partial(known: Fields, found: Fields)
    ensures
        absorb(known, found) matches Step::Pending(next) ==> next.mask() <= 14,
{
}

} // verus!
