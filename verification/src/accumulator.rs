//! The record in progress: what the fragments seen so far have filled in.

use crate::error::{Field, ParseError};
use crate::fields::{absorb, lemma_repeated_field_is_duplicate, Fields, Step};
use crate::food::{Food, FoodView};
use crate::matchers::{
    description_in, extract_description, extract_u32, number_in, CALORIES_PATTERN,
    DESCRIPTION_PATTERN, PROTEINS_PATTERN, QUANTITY_PATTERN,
};
use vstd::prelude::*;

verus! {

/// What the four matchers found in one fragment.
#[derive(Debug)]
pub struct Findings {
    pub description: Option<String>,
    pub quantity: Option<u32>,
    pub calories: Option<u32>,
    pub proteins: Option<u32>,
}

impl View for Findings {
    type V = Fields;

    open spec fn view(&self) -> Fields {
        Fields {
            description: self.description.deep_view(),
            quantity: self.quantity,
            calories: self.calories,
            proteins: self.proteins,
        }
    }
}

impl Findings {
    /// Nothing found.
    pub fn none() -> (findings: Findings)
        ensures
            findings@ == Fields::empty(),
    {
        Findings { description: None, quantity: None, calories: None, proteins: None }
    }
}

/// What the four matchers find in `fragment`, or the error of the first, in
/// the order description, quantity, calories, proteins, that fails.
pub open spec fn findings_in(fragment: Seq<char>) -> Result<Fields, ParseError> {
    let description = description_in(DESCRIPTION_PATTERN@, fragment);
    let quantity = number_in(QUANTITY_PATTERN@, fragment);
    let calories = number_in(CALORIES_PATTERN@, fragment);
    let proteins = number_in(PROTEINS_PATTERN@, fragment);
    if description is Err {
        Err(description->Err_0)
    } else if quantity is Err {
        Err(quantity->Err_0)
    } else if calories is Err {
        Err(calories->Err_0)
    } else if proteins is Err {
        Err(proteins->Err_0)
    } else {
        Ok(
            Fields {
                description: description->Ok_0,
                quantity: quantity->Ok_0,
                calories: calories->Ok_0,
                proteins: proteins->Ok_0,
            },
        )
    }
}

/// What taking `fragment` into what is `known` leads to.
///
/// The matchers are asked in the order description, quantity, calories,
/// proteins. A matcher that fails ends the step, and so does a field that it
/// finds though the field is known already; the matchers after it are then
/// not asked. What all four found is taken in together.
pub open spec fn ingest(known: Fields, fragment: Seq<char>) -> Step {
    let description = description_in(DESCRIPTION_PATTERN@, fragment);
    let quantity = number_in(QUANTITY_PATTERN@, fragment);
    let calories = number_in(CALORIES_PATTERN@, fragment);
    let proteins = number_in(PROTEINS_PATTERN@, fragment);
    if description is Err {
        Step::Rejected(description->Err_0)
    } else if known.description is Some && description->Ok_0 is Some {
        Step::Rejected(ParseError::DuplicateField(Field::Description))
    } else if quantity is Err {
        Step::Rejected(quantity->Err_0)
    } else if known.quantity is Some && quantity->Ok_0 is Some {
        Step::Rejected(ParseError::DuplicateField(Field::Quantity))
    } else if calories is Err {
        Step::Rejected(calories->Err_0)
    } else if known.calories is Some && calories->Ok_0 is Some {
        Step::Rejected(ParseError::DuplicateField(Field::Calories))
    } else if proteins is Err {
        Step::Rejected(proteins->Err_0)
    } else if known.proteins is Some && proteins->Ok_0 is Some {
        Step::Rejected(ParseError::DuplicateField(Field::Proteins))
    } else {
        absorb(known, findings_in(fragment)->Ok_0)
    }
}

/// Where all four matchers succeed on a fragment, taking the fragment in is
/// taking in what they found.
pub proof fn lemma_ingest_absorbs_findings(known: Fields, fragment: Seq<char>)
    requires
        findings_in(fragment) is Ok,
    ensures
        ingest(known, fragment) == absorb(known, findings_in(fragment)->Ok_0),
{
}

/// Whether the matchers find `field` in `fragment`, and nothing else.
pub open spec fn holds_only(fragment: Seq<char>, field: Field) -> bool {
    findings_in(fragment) matches Ok(found) && found.holds_only(field)
}

/// Whether the matcher of `field` finds its field in `fragment`.
pub open spec fn brings(fragment: Seq<char>, field: Field) -> bool {
    match field {
        Field::Description => description_in(DESCRIPTION_PATTERN@, fragment) matches Ok(Some(_)),
        Field::Quantity => number_in(QUANTITY_PATTERN@, fragment) matches Ok(Some(_)),
        Field::Calories => number_in(CALORIES_PATTERN@, fragment) matches Ok(Some(_)),
        Field::Proteins => number_in(PROTEINS_PATTERN@, fragment) matches Ok(Some(_)),
    }
}

/// A fragment that brings a field again, before the record that the field
/// belongs to is complete, is rejected: as a duplicate where all four
/// matchers succeed on it, and as a duplicate of that very field where it
/// brings nothing else.
pub proof fn lemma_field_twice_is_duplicate(
    known: Fields,
    first: Seq<char>,
    second: Seq<char>,
    field: Field,
)
    requires
        brings(first, field),
        brings(second, field),
        ingest(known, first) is Pending,
    ensures
        ingest(ingest(known, first)->Pending_0, second) is Rejected,
        findings_in(second) is Ok ==> ingest(ingest(known, first)->Pending_0, second)
            matches Step::Rejected(ParseError::DuplicateField(_)),
        holds_only(second, field) ==> ingest(ingest(known, first)->Pending_0, second)
            == Step::Rejected(ParseError::DuplicateField(field)),
{
    lemma_ingest_absorbs_findings(known, first);
    if findings_in(second) is Ok {
        lemma_ingest_absorbs_findings(ingest(known, first)->Pending_0, second);
        lemma_repeated_field_is_duplicate(
            known,
            findings_in(first)->Ok_0,
            findings_in(second)->Ok_0,
            field,
        );
    }
}

/// One record in progress. It starts empty, takes in what each fragment
/// holds, and is empty again whenever a record has been handed out.
#[derive(Debug)]
pub struct Accumulator {
    known: Findings,
}

impl View for Accumulator {
    type V = Fields;

    closed spec fn view(&self) -> Fields {
        self.known@
    }
}

/// What a step hands back to the caller, as a value of the model: the record
/// where one was emitted, nothing while the record is pending, else the error.
pub open spec fn outcome(step: Step) -> Result<Option<FoodView>, ParseError> {
    match step {
        Step::Pending(_) => Ok(None),
        Step::Emitted(food) => Ok(Some(food)),
        Step::Rejected(error) => Err(error),
    }
}

/// What is known after a step that began with `known`: the merged fields
/// while the record is pending, nothing after a record was emitted, and what
/// was known before where the step was rejected.
pub open spec fn state_after(known: Fields, step: Step) -> Fields {
    match step {
        Step::Pending(next) => next,
        Step::Emitted(_) => Fields::empty(),
        Step::Rejected(_) => known,
    }
}

/// The answer of a step, with the record it holds as a value of the model.
pub open spec fn answer_view(answer: Result<Option<Food>, ParseError>) -> Result<
    Option<FoodView>,
    ParseError,
> {
    match answer {
        Ok(Some(food)) => Ok(Some(food@)),
        Ok(None) => Ok(None),
        Err(error) => Err(error),
    }
}

impl Accumulator {
    /// An accumulator that knows nothing yet.
    pub fn new() -> (accumulator: Accumulator)
        ensures
            accumulator@ == Fields::empty(),
    {
        Accumulator { known: Findings::none() }
    }

    /// The known fields as a number: 1 for the description, 2 for the
    /// quantity, 4 for the calories and 8 for the proteins, added up.
    pub fn mask(&self) -> (mask: u8)
        ensures
            mask == self@.mask(),
    {
        let mut mask: u8 = 0;
        if self.known.description.is_some() {
            mask = mask + 1;
        }
        if self.known.quantity.is_some() {
            mask = mask + 2;
        }
        if self.known.calories.is_some() {
            mask = mask + 4;
        }
        if self.known.proteins.is_some() {
            mask = mask + 8;
        }
        mask
    }

    /// Whether nothing is known.
    pub fn is_empty(&self) -> (empty: bool)
        ensures
            empty == (self@.mask() == 0),
            empty == (self@ == Fields::empty()),
    {
        self.known.description.is_none() && self.known.quantity.is_none()
            && self.known.calories.is_none() && self.known.proteins.is_none()
    }

    /// Takes in what one fragment holds.
    ///
    /// Hands out the record once its fourth field has come and it is valid,
    /// and is empty again after that. A rejected step changes nothing.
    pub fn absorb(&mut self, found: Findings) -> (answer: Result<Option<Food>, ParseError>)
        ensures
            answer_view(answer) == outcome(absorb(old(self)@, found@)),
            final(self)@ == state_after(old(self)@, absorb(old(self)@, found@)),
            answer matches Ok(Some(food)) ==> food@.is_valid() && final(self)@ == Fields::empty(),
            answer is Err ==> final(self)@ == old(self)@,
            !old(self)@.is_complete() ==> !final(self)@.is_complete(),
    {
        if self.known.description.is_some() && found.description.is_some() {
            return Err(ParseError::DuplicateField(Field::Description));
        }
        if self.known.quantity.is_some() && found.quantity.is_some() {
            return Err(ParseError::DuplicateField(Field::Quantity));
        }
        if self.known.calories.is_some() && found.calories.is_some() {
            return Err(ParseError::DuplicateField(Field::Calories));
        }
        if self.known.proteins.is_some() && found.proteins.is_some() {
            return Err(ParseError::DuplicateField(Field::Proteins));
        }
        let quantity = if found.quantity.is_some() {
            found.quantity
        } else {
            self.known.quantity
        };
        let calories = if found.calories.is_some() {
            found.calories
        } else {
            self.known.calories
        };
        let proteins = if found.proteins.is_some() {
            found.proteins
        } else {
            self.known.proteins
        };
        let described = self.known.description.is_some() || found.description.is_some();
        if !described || quantity.is_none() || calories.is_none() || proteins.is_none() {
            if found.description.is_some() {
                self.known.description = found.description;
            }
            self.known.quantity = quantity;
            self.known.calories = calories;
            self.known.proteins = proteins;
            return Ok(None);
        }
        let nameless = match &found.description {
            Some(text) => text.as_str().is_empty(),
            None => match &self.known.description {
                Some(text) => text.as_str().is_empty(),
                None => true,
            },
        };
        if nameless {
            return Err(ParseError::InvalidRecord(Field::Description));
        }
        let quantity = quantity.unwrap();
        if quantity == 0 {
            return Err(ParseError::InvalidRecord(Field::Quantity));
        }
        let calories = calories.unwrap();
        if calories == 0 {
            return Err(ParseError::InvalidRecord(Field::Calories));
        }
        let proteins = proteins.unwrap();
        if proteins == 0 {
            return Err(ParseError::InvalidRecord(Field::Proteins));
        }
        let description = match found.description {
            Some(text) => text,
            None => self.known.description.take().unwrap(),
        };
        self.known = Findings::none();
        Ok(Some(Food { description, quantity, calories, proteins }))
    }

    /// Asks the four matchers about `fragment`, one after the other, and
    /// takes in what they found.
    pub fn ingest(&mut self, fragment: &str) -> (answer: Result<Option<Food>, ParseError>)
        ensures
            answer_view(answer) == outcome(ingest(old(self)@, fragment@)),
            final(self)@ == state_after(old(self)@, ingest(old(self)@, fragment@)),
            answer matches Ok(Some(food)) ==> food@.is_valid() && final(self)@ == Fields::empty(),
            answer is Err ==> final(self)@ == old(self)@,
            !old(self)@.is_complete() ==> !final(self)@.is_complete(),
    {
        let description = match extract_description(DESCRIPTION_PATTERN, fragment) {
            Ok(text) => text,
            Err(error) => {
                return Err(error);
            },
        };
        if self.known.description.is_some() && description.is_some() {
            return Err(ParseError::DuplicateField(Field::Description));
        }
        let quantity = match extract_u32(QUANTITY_PATTERN, fragment) {
            Ok(number) => number,
            Err(error) => {
                return Err(error);
            },
        };
        if self.known.quantity.is_some() && quantity.is_some() {
            return Err(ParseError::DuplicateField(Field::Quantity));
        }
        let calories = match extract_u32(CALORIES_PATTERN, fragment) {
            Ok(number) => number,
            Err(error) => {
                return Err(error);
            },
        };
        if self.known.calories.is_some() && calories.is_some() {
            return Err(ParseError::DuplicateField(Field::Calories));
        }
        let proteins = match extract_u32(PROTEINS_PATTERN, fragment) {
            Ok(number) => number,
            Err(error) => {
                return Err(error);
            },
        };
        if self.known.proteins.is_some() && proteins.is_some() {
            return Err(ParseError::DuplicateField(Field::Proteins));
        }
        self.absorb(Findings { description, quantity, calories, proteins })
    }

    /// Ends the input: a record in progress can no longer be completed.
    pub fn finish(&self) -> (end: Result<(), ParseError>)
        ensures
            self@.mask() == 0 ==> end == Ok::<(), ParseError>(()),
            self@.mask() != 0 ==> end == Err::<(), ParseError>(ParseError::Truncated),
    {
        if self.is_empty() {
            Ok(())
        } else {
            Err(ParseError::Truncated)
        }
    }
}

} // verus!
