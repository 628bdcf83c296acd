//! The menu builder: feeds the fragments of a page to the accumulator, in
//! page order, and collects the records that come out.

use crate::accumulator::{findings_in, holds_only, ingest, Accumulator};
use crate::error::{Field, ParseError};
use crate::fields::{Fields, Step};
use crate::food::{Food, FoodView, Menu, MenuView};
use vstd::prelude::*;

verus! {

/// Where the builder stands after `fragments`: the fields of the record in
/// progress and the records completed so far, or the error that stopped it.
pub open spec fn run(fragments: Seq<Seq<char>>) -> Result<(Fields, Seq<FoodView>), ParseError>
    decreases fragments.len(),
{
    if fragments.len() == 0 {
        Ok((Fields::empty(), Seq::empty()))
    } else {
        match run(fragments.drop_last()) {
            Ok((known, foods)) => match ingest(known, fragments.last()) {
                Step::Pending(next) => Ok((next, foods)),
                Step::Emitted(food) => Ok((Fields::empty(), foods.push(food))),
                Step::Rejected(error) => Err(error),
            },
            Err(error) => Err(error),
        }
    }
}

/// The records that `fragments` hold, in the order in which they are
/// completed. Input that ends inside a record is truncated.
pub open spec fn records_in(fragments: Seq<Seq<char>>) -> Result<Seq<FoodView>, ParseError> {
    match run(fragments) {
        Ok((known, foods)) => if known.mask() == 0 {
            Ok(foods)
        } else {
            Err(ParseError::Truncated)
        },
        Err(error) => Err(error),
    }
}

/// The text nodes of a page without the first, which is a header and holds
/// no data.
pub open spec fn after_header(nodes: Seq<Seq<char>>) -> Seq<Seq<char>> {
    if nodes.len() == 0 {
        nodes
    } else {
        nodes.skip(1)
    }
}

/// The menu for `date` that the text nodes of a page hold.
pub open spec fn menu_in(date: Seq<char>, nodes: Seq<Seq<char>>) -> Result<MenuView, ParseError> {
    match records_in(after_header(nodes)) {
        Ok(foods) => Ok(MenuView { date, foods }),
        Err(error) => Err(error),
    }
}

/// The answer of [`parse_fragments`], with its records as values of the model.
pub open spec fn records_view(answer: Result<Vec<Food>, ParseError>) -> Result<
    Seq<FoodView>,
    ParseError,
> {
    match answer {
        Ok(foods) => Ok(foods.deep_view()),
        Err(error) => Err(error),
    }
}

/// The answer of [`parse_text_nodes`], with its menu as a value of the model.
pub open spec fn menu_view(answer: Result<Menu, ParseError>) -> Result<MenuView, ParseError> {
    match answer {
        Ok(menu) => Ok(menu@),
        Err(error) => Err(error),
    }
}

/// One more fragment continues from where the fragments before it led.
pub proof fn lemma_run_step(fragments: Seq<Seq<char>>, n: int)
    requires
        0 <= n < fragments.len(),
    ensures
        run(fragments.take(n + 1)) == match run(fragments.take(n)) {
            Ok((known, foods)) => match ingest(known, fragments[n]) {
                Step::Pending(next) => Ok((next, foods)),
                Step::Emitted(food) => Ok((Fields::empty(), foods.push(food))),
                Step::Rejected(error) => Err(error),
            },
            Err(error) => Err(error),
        },
{
    assert(fragments.take(n + 1).drop_last() =~= fragments.take(n));
}

/// The error that stops the builder on a prefix stops it on the whole input.
pub proof fn lemma_run_error_is_final(fragments: Seq<Seq<char>>, n: int)
    requires
        0 <= n <= fragments.len(),
        run(fragments.take(n)) is Err,
    ensures
        run(fragments) == run(fragments.take(n)),
    decreases fragments.len() - n,
{
    if n == fragments.len() {
        assert(fragments.take(n) =~= fragments);
    } else {
        lemma_run_step(fragments, n);
        lemma_run_error_is_final(fragments, n + 1);
    }
}

/// Whether every record of `foods` is valid.
pub open spec fn all_valid(foods: Seq<FoodView>) -> bool {
    forall|i: int| 0 <= i < foods.len() ==> (#[trigger] foods[i]).is_valid()
}

/// Every record that the builder completes is valid, and the record in
/// progress never has all four fields.
pub proof fn lemma_run_emits_valid_records(fragments: Seq<Seq<char>>)
    ensures
        run(fragments) matches Ok((known, foods)) ==> known.mask() <= 14 && all_valid(foods),
    decreases fragments.len(),
{
    if fragments.len() > 0 {
        lemma_run_emits_valid_records(fragments.drop_last());
    }
}

/// Input that ends while some field of a record is known, and not yet all
/// four, is rejected as truncated.
pub proof fn lemma_partial_record_is_truncated(fragments: Seq<Seq<char>>)
    requires
        run(fragments) matches Ok((known, _)) && known.mask() != 0,
    ensures
        records_in(fragments) == Err::<Seq<FoodView>, ParseError>(ParseError::Truncated),
{
}

/// Whether `fragments` are four that hold one field each, as `fields` says,
/// and no field twice.
pub open spec fn one_field_each(fragments: Seq<Seq<char>>, fields: Seq<Field>) -> bool {
    &&& fragments.len() == 4
    &&& fields.len() == 4
    &&& forall|i: int| 0 <= i < 4 ==> holds_only(#[trigger] fragments[i], fields[i])
    &&& forall|i: int, j: int| 0 <= i < j < 4 ==> fields[i] != fields[j]
}

/// Whether `order` lists the positions 0 to 3, each once.
pub open spec fn is_order(order: Seq<int>) -> bool {
    &&& order.len() == 4
    &&& forall|i: int| 0 <= i < 4 ==> 0 <= #[trigger] order[i] < 4
    &&& forall|i: int, j: int| 0 <= i < j < 4 ==> order[i] != order[j]
}

/// `fragments` in the given `order`.
pub open spec fn rearranged(fragments: Seq<Seq<char>>, order: Seq<int>) -> Seq<Seq<char>> {
    Seq::new(4, |k: int| fragments[order[k]])
}

/// What the matchers find in four fragments, taken together.
pub open spec fn assembled(fragments: Seq<Seq<char>>) -> Fields {
    Fields::empty().with(findings_in(fragments[0])->Ok_0).with(
        findings_in(fragments[1])->Ok_0,
    ).with(findings_in(fragments[2])->Ok_0).with(findings_in(fragments[3])->Ok_0)
}

/// What four fields make: the one record, or the error for its first field
/// that is empty or zero.
pub open spec fn one_record(fields: Fields) -> Result<Seq<FoodView>, ParseError> {
    match fields.defect() {
        Some(field) => Err(ParseError::InvalidRecord(field)),
        None => Ok(seq![fields.record()]),
    }
}

/// Four fragments that hold one field each, a different one each, make
/// exactly one record, and the builder is empty again after it. Where a
/// field is empty or zero the record is rejected instead.
pub proof fn lemma_four_fields_make_one_record(fragments: Seq<Seq<char>>, fields: Seq<Field>)
    requires
        one_field_each(fragments, fields),
    ensures
        records_in(fragments) == one_record(assembled(fragments)),
        assembled(fragments).is_complete(),
        assembled(fragments).defect() is None ==> run(fragments) == Ok::<
            (Fields, Seq<FoodView>),
            ParseError,
        >((Fields::empty(), seq![assembled(fragments).record()])),
{
    assert(holds_only(fragments[0], fields[0]));
    assert(holds_only(fragments[1], fields[1]));
    assert(holds_only(fragments[2], fields[2]));
    assert(holds_only(fragments[3], fields[3]));
    assert(fields[0] != fields[1] && fields[0] != fields[2] && fields[0] != fields[3]);
    assert(fields[1] != fields[2] && fields[1] != fields[3] && fields[2] != fields[3]);
    assert(fragments.take(0) =~= Seq::<Seq<char>>::empty());
    assert(run(fragments.take(0)) == Ok::<(Fields, Seq<FoodView>), ParseError>(
        (Fields::empty(), Seq::empty()),
    ));
    lemma_run_step(fragments, 0);
    lemma_run_step(fragments, 1);
    lemma_run_step(fragments, 2);
    lemma_run_step(fragments, 3);
    assert(fragments.take(4) =~= fragments);
    assert(Seq::<FoodView>::empty().push(assembled(fragments).record()) =~= seq![
        assembled(fragments).record(),
    ]);
}

/// The order in which four fragments bring the four fields makes no
/// difference: in any order they make the same record, or meet the same
/// rejection.
pub proof fn lemma_order_does_not_matter(
    fragments: Seq<Seq<char>>,
    fields: Seq<Field>,
    order: Seq<int>,
)
    requires
        one_field_each(fragments, fields),
        is_order(order),
    ensures
        records_in(rearranged(fragments, order)) == records_in(fragments),
        records_in(fragments) matches Ok(foods) ==> foods.len() == 1,
{
    let moved = rearranged(fragments, order);
    let moved_fields = Seq::new(4, |k: int| fields[order[k]]);
    assert(0 <= order[0] < 4 && 0 <= order[1] < 4 && 0 <= order[2] < 4 && 0 <= order[3] < 4);
    assert(order[0] != order[1] && order[0] != order[2] && order[0] != order[3]);
    assert(order[1] != order[2] && order[1] != order[3] && order[2] != order[3]);
    assert(holds_only(fragments[0], fields[0]));
    assert(holds_only(fragments[1], fields[1]));
    assert(holds_only(fragments[2], fields[2]));
    assert(holds_only(fragments[3], fields[3]));
    assert(fields[0] != fields[1] && fields[0] != fields[2] && fields[0] != fields[3]);
    assert(fields[1] != fields[2] && fields[1] != fields[3] && fields[2] != fields[3]);
    assert forall|i: int, j: int| 0 <= i < j < 4 implies moved_fields[i] != moved_fields[j] by {
        assert(order[i] != order[j]);
    }
    assert(one_field_each(moved, moved_fields));
    lemma_four_fields_make_one_record(fragments, fields);
    lemma_four_fields_make_one_record(moved, moved_fields);
    assert(assembled(moved) == assembled(fragments));
}

/// Feeds `fragments[from..]` to a fresh accumulator.
fn collect(fragments: &Vec<String>, from: usize) -> (answer: Result<Vec<Food>, ParseError>)
    requires
        from <= fragments.len(),
    ensures
        records_view(answer) == records_in(fragments.deep_view().skip(from as int)),
        answer matches Ok(foods) ==> all_valid(foods.deep_view()),
{
    proof {
        lemma_run_emits_valid_records(fragments.deep_view().skip(from as int));
    }
    let ghost input = fragments.deep_view().skip(from as int);
    let mut accumulator = Accumulator::new();
    let mut foods: Vec<Food> = Vec::new();
    let mut i: usize = from;
    assert(input.take(0) =~= Seq::<Seq<char>>::empty());
    assert(foods.deep_view() =~= Seq::<FoodView>::empty());
    while i < fragments.len()
        invariant
            from <= i <= fragments.len(),
            input == fragments.deep_view().skip(from as int),
            run(input.take(i - from)) == Ok::<(Fields, Seq<FoodView>), ParseError>(
                (accumulator@, foods.deep_view()),
            ),
        decreases fragments.len() - i,
    {
        proof {
            lemma_run_step(input, i - from);
            assert(input[i - from] == fragments@[i as int]@);
        }
        let ghost before = foods.deep_view();
        match accumulator.ingest(fragments[i].as_str()) {
            Ok(Some(food)) => {
                let ghost emitted = food@;
                foods.push(food);
                assert(foods.deep_view() =~= before.push(emitted));
            },
            Ok(None) => {},
            Err(error) => {
                proof {
                    lemma_run_error_is_final(input, i - from + 1);
                }
                return Err(error);
            },
        }
        i += 1;
    }
    assert(input.take(i - from) =~= input);
    match accumulator.finish() {
        Ok(()) => Ok(foods),
        Err(error) => Err(error),
    }
}

/// Reads the records out of `fragments`, which hold data from the first on.
pub fn parse_fragments(fragments: &Vec<String>) -> (answer: Result<Vec<Food>, ParseError>)
    ensures
        records_view(answer) == records_in(fragments.deep_view()),
        answer matches Ok(foods) ==> all_valid(foods.deep_view()),
{
    assert(fragments.deep_view().skip(0) =~= fragments.deep_view());
    collect(fragments, 0)
}

/// Builds the menu for `date` from the text nodes of a page. The first node
/// is the page's header and is passed over.
pub fn parse_text_nodes(date: &str, nodes: &Vec<String>) -> (answer: Result<Menu, ParseError>)
    ensures
        menu_view(answer) == menu_in(date@, nodes.deep_view()),
        answer matches Ok(menu) ==> all_valid(menu@.foods),
{
    let from: usize = if nodes.len() == 0 {
        0
    } else {
        1
    };
    assert(nodes.deep_view().skip(from as int) =~= after_header(nodes.deep_view()));
    match collect(nodes, from) {
        Ok(foods) => Ok(Menu { date: date.to_owned(), foods }),
        Err(error) => Err(error),
    }
}

} // verus!
