use vstd::prelude::*;

verus! {

/// Whether `n` is divisible by two.
pub fn is_even(n: i32) -> (r: bool)
    ensures
        r == (n % 2 == 0),
{
    n % 2 == 0
}

/// Twenty times `x`: the input doubled, then scaled by ten.
pub fn double(x: i32) -> (r: i32)
    requires
        -2147483648 <= 20 * x <= 2147483647,
    ensures
        r == 20 * x,
{
    let y: i32 = 10;
    x * 2 * y
}

/// How a number is announced: divisible by both three and five, by three,
/// by five, otherwise even or odd.
#[derive(Clone, Copy, Debug, PartialEq, Eq, Structural)]
pub enum NumberLabel {
    FizzBuzz,
    Fizz,
    Buzz,
    Even,
    Odd,
}

/// The label of `n`; divisibility by three and five takes precedence over
/// parity.
pub open spec fn label_of(n: i32) -> NumberLabel {
    if n % 3 == 0 && n % 5 == 0 {
        NumberLabel::FizzBuzz
    } else if n % 3 == 0 {
        NumberLabel::Fizz
    } else if n % 5 == 0 {
        NumberLabel::Buzz
    } else if n % 2 == 0 {
        NumberLabel::Even
    } else {
        NumberLabel::Odd
    }
}

/// Labels `n`.
pub fn classify(n: i32) -> (label: NumberLabel)
    ensures
        label == label_of(n),
{
    let by_three = n % 3 == 0;
    let by_five = n % 5 == 0;
    if by_three && by_five {
        NumberLabel::FizzBuzz
    } else if by_three {
        NumberLabel::Fizz
    } else if by_five {
        NumberLabel::Buzz
    } else if is_even(n) {
        NumberLabel::Even
    } else {
        NumberLabel::Odd
    }
}

/// What each label means: FizzBuzz for multiples of fifteen, Fizz for the
/// other multiples of three, Buzz for the other multiples of five, and for
/// the rest Even or Odd by parity, as `is_even` decides.
pub proof fn lemma_label_meaning(n: i32)
    ensures
        label_of(n) == NumberLabel::FizzBuzz <==> n % 15 == 0,
        label_of(n) == NumberLabel::Fizz <==> n % 3 == 0 && n % 5 != 0,
        label_of(n) == NumberLabel::Buzz <==> n % 5 == 0 && n % 3 != 0,
        label_of(n) == NumberLabel::Even <==> n % 3 != 0 && n % 5 != 0 && n % 2 == 0,
        label_of(n) == NumberLabel::Odd <==> n % 3 != 0 && n % 5 != 0 && n % 2 != 0,
        n % 3 != 0 && n % 5 != 0 ==> (label_of(n) == NumberLabel::Even <==> (n as int) % 2 == 0),
{
    let k = n as int;
    assert((k % 3 == 0 && k % 5 == 0) <==> k % 15 == 0) by (nonlinear_arith);
}

/// Labels repeat every thirty: a number and the number thirty above it get
/// the same label.
pub proof fn lemma_label_period(n: i32)
    requires
        n <= i32::MAX - 30,
    ensures
        label_of(n) == label_of((n + 30) as i32),
{
    let k = n as int;
    assert((k + 30) % 3 == k % 3);
    assert((k + 30) % 5 == k % 5);
    assert((k + 30) % 2 == k % 2);
}

impl NumberLabel {
    /// The word printed for this label.
    pub fn name(&self) -> (s: &'static str)
        ensures
            *self == NumberLabel::FizzBuzz ==> s@ == "FizzBuzz"@,
            *self == NumberLabel::Fizz ==> s@ == "Fizz"@,
            *self == NumberLabel::Buzz ==> s@ == "Buzz"@,
            *self == NumberLabel::Even ==> s@ == "Even"@,
            *self == NumberLabel::Odd ==> s@ == "Odd"@,
    {
        match self {
            NumberLabel::FizzBuzz => "FizzBuzz",
            NumberLabel::Fizz => "Fizz",
            NumberLabel::Buzz => "Buzz",
            NumberLabel::Even => "Even",
            NumberLabel::Odd => "Odd",
        }
    }
}

/// The sum of `s`, as a mathematical integer.
pub open spec fn sum_of(s: Seq<i32>) -> int
    decreases s.len(),
{
    if s.len() == 0 {
        0
    } else {
        sum_of(s.drop_last()) + s.last()
    }
}

/// The sum takes every element in: appending a number adds it to the sum,
/// the sum of two sequences joined is the sum of their sums, and a single
/// number sums to itself.
pub proof fn lemma_sum_additive(s: Seq<i32>, t: Seq<i32>, x: i32)
    ensures
        sum_of(s.push(x)) == sum_of(s) + x,
        sum_of(s + t) == sum_of(s) + sum_of(t),
        sum_of(seq![x]) == x,
    decreases t.len(),
{
    assert(s.push(x).drop_last() =~= s);
    assert(seq![x].drop_last() =~= Seq::<i32>::empty());
    assert(sum_of(Seq::<i32>::empty()) == 0);
    assert(seq![x].last() == x);
    if t.len() == 0 {
        assert(s + t =~= s);
    } else {
        lemma_sum_additive(s, t.drop_last(), x);
        assert((s + t).drop_last() =~= s + t.drop_last());
    }
}

/// Every running total of `s`, from left to right, fits in an `i32`.
pub open spec fn running_sums_fit(s: Seq<i32>) -> bool {
    forall|k: int| 0 <= k <= s.len() ==> i32::MIN <= #[trigger] sum_of(s.take(k)) <= i32::MAX
}

/// Adds up `numbers` from left to right.
pub fn sum_numbers(numbers: &[i32]) -> (total: i32)
    requires
        running_sums_fit(numbers@),
    ensures
        total == sum_of(numbers@),
{
    let mut total: i32 = 0;
    let mut index: usize = 0;
    while index < numbers.len()
        invariant
            index <= numbers.len(),
            running_sums_fit(numbers@),
            total == sum_of(numbers@.take(index as int)),
        decreases numbers.len() - index,
    {
        assert(numbers@.take(index + 1).drop_last() =~= numbers@.take(index as int));
        assert(i32::MIN <= sum_of(numbers@.take(index + 1)) <= i32::MAX);
        total = total + numbers[index];
        index = index + 1;
    }
    assert(numbers@.take(numbers.len() as int) =~= numbers@);
    total
}

/// The largest of `numbers`.
pub fn largest_number(numbers: &[i32]) -> (largest: i32)
    requires
        numbers.len() > 0,
    ensures
        numbers@.contains(largest),
        forall|i: int| 0 <= i < numbers.len() ==> numbers[i] <= largest,
{
    let mut largest = numbers[0];
    let mut i: usize = 1;
    while i < numbers.len()
        invariant
            1 <= i <= numbers.len(),
            numbers@.contains(largest),
            forall|j: int| 0 <= j < i ==> numbers[j] <= largest,
        decreases numbers.len() - i,
    {
        if numbers[i] > largest {
            largest = numbers[i];
        }
        i = i + 1;
    }
    largest
}

} // verus!
