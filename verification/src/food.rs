//! Food records and the menu that collects them.

use vstd::prelude::*;

verus! {

/// One entry of a meal plan.
#[derive(Debug)]
pub struct Food {
    pub description: String,
    /// Weight in grams.
    pub quantity: u32,
    /// Energy in kilocalories.
    pub calories: u32,
    /// Proteins in grams.
    pub proteins: u32,
}

/// The mathematical value of a [`Food`].
pub struct FoodView {
    pub description: Seq<char>,
    pub quantity: u32,
    pub calories: u32,
    pub proteins: u32,
}

impl FoodView {
    /// A record is valid when it names the food and none of its numbers is zero.
    pub open spec fn is_valid(self) -> bool {
        &&& self.description.len() > 0
        &&& self.quantity > 0
        &&& self.calories > 0
        &&& self.proteins > 0
    }
}

impl View for Food {
    type V = FoodView;

    open spec fn view(&self) -> FoodView {
        FoodView {
            description: self.description@,
            quantity: self.quantity,
            calories: self.calories,
            proteins: self.proteins,
        }
    }
}

impl DeepView for Food {
    type V = FoodView;

    open spec fn deep_view(&self) -> FoodView {
        self@
    }
}

impl Clone for Food {
    fn clone(&self) -> (copy: Self)
        ensures
            copy@ == self@,
    {
        Food {
            description: self.description.clone(),
            quantity: self.quantity,
            calories: self.calories,
            proteins: self.proteins,
        }
    }
}

impl Default for Food {
    fn default() -> (food: Self)
        ensures
            food@ == (FoodView { description: Seq::empty(), quantity: 0, calories: 0, proteins: 0 }),
    {
        Food { description: String::new(), quantity: 0, calories: 0, proteins: 0 }
    }
}

impl PartialEq for Food {
    fn eq(&self, other: &Self) -> (equal: bool) {
        self.description == other.description && self.quantity == other.quantity && self.calories
            == other.calories && self.proteins == other.proteins
    }
}

impl vstd::std_specs::cmp::PartialEqSpecImpl for Food {
    open spec fn obeys_eq_spec() -> bool {
        true
    }

    open spec fn eq_spec(&self, other: &Self) -> bool {
        self@ == other@
    }
}

/// The sum of `amounts`.
pub open spec fn sum(amounts: Seq<u32>) -> nat
    decreases amounts.len(),
{
    if amounts.len() == 0 {
        0
    } else {
        sum(amounts.drop_last()) + amounts.last() as nat
    }
}

/// One more amount adds to the sum of those before it.
pub proof fn lemma_sum_step(amounts: Seq<u32>, n: int)
    requires
        0 <= n < amounts.len(),
    ensures
        sum(amounts.take(n + 1)) == sum(amounts.take(n)) + amounts[n],
{
    assert(amounts.take(n + 1).drop_last() =~= amounts.take(n));
}

/// The sum of a prefix is at most the sum of the whole.
pub proof fn lemma_sum_grows(amounts: Seq<u32>, n: int)
    requires
        0 <= n <= amounts.len(),
    ensures
        sum(amounts.take(n)) <= sum(amounts),
    decreases amounts.len() - n,
{
    if n == amounts.len() {
        assert(amounts.take(n) =~= amounts);
    } else {
        lemma_sum_step(amounts, n);
        lemma_sum_grows(amounts, n + 1);
    }
}

/// The foods of one day, in the order in which the page lists them.
#[derive(Debug)]
pub struct Menu {
    pub date: String,
    pub foods: Vec<Food>,
}

/// The mathematical value of a [`Menu`].
pub struct MenuView {
    pub date: Seq<char>,
    pub foods: Seq<FoodView>,
}

impl MenuView {
    /// The calories of each food, in menu order.
    pub open spec fn calories(self) -> Seq<u32> {
        Seq::new(self.foods.len(), |i: int| self.foods[i].calories)
    }

    /// The proteins of each food, in menu order.
    pub open spec fn proteins(self) -> Seq<u32> {
        Seq::new(self.foods.len(), |i: int| self.foods[i].proteins)
    }

    /// The calories of all foods together.
    pub open spec fn total_calories(self) -> nat {
        sum(self.calories())
    }

    /// The proteins of all foods together.
    pub open spec fn total_proteins(self) -> nat {
        sum(self.proteins())
    }
}

impl View for Menu {
    type V = MenuView;

    open spec fn view(&self) -> MenuView {
        MenuView { date: self.date@, foods: self.foods.deep_view() }
    }
}

/// Which of a food's two nutritional amounts is meant.
#[derive(Clone, Copy)]
enum Nutrient {
    Calories,
    Proteins,
}

/// The chosen amount of each food, in menu order.
spec fn amounts(menu: MenuView, nutrient: Nutrient) -> Seq<u32> {
    match nutrient {
        Nutrient::Calories => menu.calories(),
        Nutrient::Proteins => menu.proteins(),
    }
}

impl Menu {
    /// An empty menu for `date`.
    pub fn new(date: &str) -> (menu: Menu)
        ensures
            menu@.date == date@,
            menu@.foods == Seq::<FoodView>::empty(),
    {
        let menu = Menu { date: date.to_owned(), foods: Vec::new() };
        assert(menu.foods.deep_view() =~= Seq::<FoodView>::empty());
        menu
    }

    /// Appends `food`; what was there stays in place.
    pub fn add_food(&mut self, food: Food)
        ensures
            final(self)@.date == old(self)@.date,
            final(self)@.foods == old(self)@.foods.push(food@),
    {
        self.foods.push(food);
        assert(self.foods.deep_view() =~= old(self).foods.deep_view().push(food@));
    }

    /// Adds up the chosen amount of every food, as long as the sum fits.
    fn checked_total(&self, nutrient: Nutrient) -> (total: Option<u32>)
        ensures
            total is Some <==> sum(amounts(self@, nutrient)) <= u32::MAX,
            total matches Some(all) ==> all == sum(amounts(self@, nutrient)),
    {
        let ghost each = amounts(self@, nutrient);
        let mut total: u32 = 0;
        let mut i: usize = 0;
        assert(each.take(0) =~= Seq::<u32>::empty());
        while i < self.foods.len()
            invariant
                i <= self.foods.len(),
                each == amounts(self@, nutrient),
                each.len() == self.foods.len(),
                total == sum(each.take(i as int)),
            decreases self.foods.len() - i,
        {
            let amount = match nutrient {
                Nutrient::Calories => self.foods[i].calories,
                Nutrient::Proteins => self.foods[i].proteins,
            };
            proof {
                assert(amount == each[i as int]);
                lemma_sum_step(each, i as int);
                lemma_sum_grows(each, i as int + 1);
            }
            match total.checked_add(amount) {
                Some(more) => {
                    total = more;
                },
                None => {
                    return None;
                },
            }
            i += 1;
        }
        assert(each.take(i as int) =~= each);
        Some(total)
    }

    /// The calories of all foods together, or `None` where a `u32` cannot
    /// hold them.
    pub fn checked_total_calories(&self) -> (total: Option<u32>)
        ensures
            total is Some <==> self@.total_calories() <= u32::MAX,
            total matches Some(all) ==> all == self@.total_calories(),
    {
        self.checked_total(Nutrient::Calories)
    }

    /// The proteins of all foods together, or `None` where a `u32` cannot
    /// hold them.
    pub fn checked_total_proteins(&self) -> (total: Option<u32>)
        ensures
            total is Some <==> self@.total_proteins() <= u32::MAX,
            total matches Some(all) ==> all == self@.total_proteins(),
    {
        self.checked_total(Nutrient::Proteins)
    }

    /// The calories of all foods together.
    pub fn total_calories(&self) -> (total: u32)
        requires
            self@.total_calories() <= u32::MAX,
        ensures
            total == self@.total_calories(),
    {
        self.checked_total(Nutrient::Calories).unwrap()
    }

    /// The proteins of all foods together.
    pub fn total_proteins(&self) -> (total: u32)
        requires
            self@.total_proteins() <= u32::MAX,
        ensures
            total == self@.total_proteins(),
    {
        self.checked_total(Nutrient::Proteins).unwrap()
    }
}

/// How a total stands against the target of the day.
#[derive(Clone, Copy, Debug, PartialEq, Eq, Structural)]
pub enum Balance {
    /// The target is met, with this much to spare.
    Reached(u32),
    /// The target is missed by this much.
    Short(u32),
}

/// Holds `total` against `target`.
pub fn balance(total: u32, target: u32) -> (balance: Balance)
    ensures
        total >= target ==> balance == Balance::Reached((total - target) as u32),
        total < target ==> balance == Balance::Short((target - total) as u32),
{
    if total >= target {
        Balance::Reached(total - target)
    } else {
        Balance::Short(target - total)
    }
}

} // verus!
