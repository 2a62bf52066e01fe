//! The series for s+XY/2, from which the CIO locator s is had: its terms, in
//! the order in which they are published and in the order in which they are
//! summed.
//!
//! The amplitudes are whole numbers of hundredths of a microarcsecond, which
//! is how far the published values go. A number of arcseconds is had from one
//! by a single division by [`UNITS_PER_ARCSECOND`], which rounds once, to the
//! double-precision number nearest to the published value.

use vstd::prelude::*;

verus! {

/// The amplitudes and the polynomial coefficients count this many to the
/// arcsecond.
pub const UNITS_PER_ARCSECOND: u32 = 100_000_000;

/// The highest power of the time that has terms of its own.
pub const HIGHEST_ORDER: usize = 4;

/// One term of the series: the sine and the cosine of one argument, each with
/// its amplitude.
#[derive(Clone, Copy, Debug, PartialEq, Eq)]
pub struct Term {
    /// What multiplies each fundamental argument in the argument of the
    /// term: coefficients of l, l', F, D, Om, LVe, LE, pA.
    pub nfa: [i32; 8],
    /// Amplitude of the sine.
    pub s: i32,
    /// Amplitude of the cosine.
    pub c: i32,
}

/// The term with the given multipliers of l, l', F, D, Om, LVe, LE and pA, and
/// the given amplitudes of the sine and of the cosine.
pub open spec fn term(
    l: int,
    lp: int,
    f: int,
    d: int,
    om: int,
    ve: int,
    e: int,
    pa: int,
    s: int,
    c: int,
) -> Term {
    Term {
        nfa: [
            l as i32,
            lp as i32,
            f as i32,
            d as i32,
            om as i32,
            ve as i32,
            e as i32,
            pa as i32,
        ],
        s: s as i32,
        c: c as i32,
    }
}

/// The polynomial part of the series: the coefficients of the powers 0 to 5
/// of the time.
pub open spec fn polynomial_coefficients() -> Seq<int> {
    seq![9400, 380865, -12268, -7257411, 2798, 1562]
}

/// The terms that go with the power `order` of the time, in the order in
/// which they are published: by and large the largest first. There are none
/// for a power above the fourth.
pub open spec fn series(order: int) -> Seq<Term> {
    if order == 0 {
        series_0()
    } else if order == 1 {
        series_1()
    } else if order == 2 {
        series_2()
    } else if order == 3 {
        series_3()
    } else if order == 4 {
        series_4()
    } else {
        Seq::empty()
    }
}

/// The constant terms, as published.
pub open spec fn series_0() -> Seq<Term> {
    seq![
        term(0, 0, 0, 0, 1, 0, 0, 0, -264073, 39),
        term(0, 0, 0, 0, 2, 0, 0, 0, -6353, 2),
        term(0, 0, 2, -2, 3, 0, 0, 0, -1175, -1),
        term(0, 0, 2, -2, 1, 0, 0, 0, -1121, -1),
        term(0, 0, 2, -2, 2, 0, 0, 0, 457, 0),
        term(0, 0, 2, 0, 3, 0, 0, 0, -202, 0),
        term(0, 0, 2, 0, 1, 0, 0, 0, -198, 0),
        term(0, 0, 0, 0, 3, 0, 0, 0, 172, 0),
        term(0, 1, 0, 0, 1, 0, 0, 0, 141, 1),
        term(0, 1, 0, 0, -1, 0, 0, 0, 126, 1),
        term(1, 0, 0, 0, -1, 0, 0, 0, 63, 0),
        term(1, 0, 0, 0, 1, 0, 0, 0, 63, 0),
        term(0, 1, 2, -2, 3, 0, 0, 0, -46, 0),
        term(0, 1, 2, -2, 1, 0, 0, 0, -45, 0),
        term(0, 0, 4, -4, 4, 0, 0, 0, -36, 0),
        term(0, 0, 1, -1, 1, -8, 12, 0, 24, 12),
        term(0, 0, 2, 0, 0, 0, 0, 0, -32, 0),
        term(0, 0, 2, 0, 2, 0, 0, 0, -28, 0),
        term(1, 0, 2, 0, 3, 0, 0, 0, -27, 0),
        term(1, 0, 2, 0, 1, 0, 0, 0, -26, 0),
        term(0, 0, 2, -2, 0, 0, 0, 0, 21, 0),
        term(0, 1, -2, 2, -3, 0, 0, 0, -19, 0),
        term(0, 1, -2, 2, -1, 0, 0, 0, -18, 0),
        term(0, 0, 0, 0, 0, 8, -13, -1, 10, -5),
        term(0, 0, 0, 2, 0, 0, 0, 0, -15, 0),
        term(2, 0, -2, 0, -1, 0, 0, 0, 14, 0),
        term(0, 1, 2, -2, 2, 0, 0, 0, 14, 0),
        term(1, 0, 0, -2, 1, 0, 0, 0, -14, 0),
        term(1, 0, 0, -2, -1, 0, 0, 0, -14, 0),
        term(0, 0, 4, -2, 4, 0, 0, 0, -13, 0),
        term(0, 0, 2, -2, 4, 0, 0, 0, 11, 0),
        term(1, 0, -2, 0, -3, 0, 0, 0, -11, 0),
        term(1, 0, -2, 0, -1, 0, 0, 0, -11, 0),
    ]
}

/// The terms in t, as published.
pub open spec fn series_1() -> Seq<Term> {
    seq![
        term(0, 0, 0, 0, 2, 0, 0, 0, -7, 357),
        term(0, 0, 0, 0, 1, 0, 0, 0, 173, -3),
        term(0, 0, 2, -2, 3, 0, 0, 0, 0, 48),
    ]
}

/// The terms in t^2, as published.
pub open spec fn series_2() -> Seq<Term> {
    seq![
        term(0, 0, 0, 0, 1, 0, 0, 0, 74352, -17),
        term(0, 0, 2, -2, 2, 0, 0, 0, 5691, 6),
        term(0, 0, 2, 0, 2, 0, 0, 0, 984, -1),
        term(0, 0, 0, 0, 2, 0, 0, 0, -885, 1),
        term(0, 1, 0, 0, 0, 0, 0, 0, -638, -5),
        term(1, 0, 0, 0, 0, 0, 0, 0, -307, 0),
        term(0, 1, 2, -2, 2, 0, 0, 0, 223, 0),
        term(0, 0, 2, 0, 1, 0, 0, 0, 167, 0),
        term(1, 0, 2, 0, 2, 0, 0, 0, 130, 0),
        term(0, 1, -2, 2, -2, 0, 0, 0, 93, 0),
        term(1, 0, 0, -2, 0, 0, 0, 0, 68, 0),
        term(0, 0, 2, -2, 1, 0, 0, 0, -55, 0),
        term(1, 0, -2, 0, -2, 0, 0, 0, 53, 0),
        term(0, 0, 0, 2, 0, 0, 0, 0, -27, 0),
        term(1, 0, 0, 0, 1, 0, 0, 0, -27, 0),
        term(1, 0, -2, -2, -2, 0, 0, 0, -26, 0),
        term(1, 0, 0, 0, -1, 0, 0, 0, -25, 0),
        term(1, 0, 2, 0, 1, 0, 0, 0, 22, 0),
        term(2, 0, 0, -2, 0, 0, 0, 0, -21, 0),
        term(2, 0, -2, 0, -1, 0, 0, 0, 20, 0),
        term(0, 0, 2, 2, 2, 0, 0, 0, 17, 0),
        term(2, 0, 2, 0, 2, 0, 0, 0, 13, 0),
        term(2, 0, 0, 0, 0, 0, 0, 0, -13, 0),
        term(1, 0, 2, -2, 2, 0, 0, 0, -12, 0),
        term(0, 0, 2, 0, 0, 0, 0, 0, -11, 0),
    ]
}

/// The terms in t^3, as published.
pub open spec fn series_3() -> Seq<Term> {
    seq![
        term(0, 0, 0, 0, 1, 0, 0, 0, 30, -2342),
        term(0, 0, 2, -2, 2, 0, 0, 0, -3, -146),
        term(0, 0, 2, 0, 2, 0, 0, 0, -1, -25),
        term(0, 0, 0, 0, 2, 0, 0, 0, 0, 23),
    ]
}

/// The terms in t^4, as published.
pub open spec fn series_4() -> Seq<Term> {
    seq![
        term(0, 0, 0, 0, 1, 0, 0, 0, -26, -1),
    ]
}

/// The terms in the order in which they are summed: from the last published,
/// which are the smallest, to the first. Adding the small terms first keeps
/// what they contribute.
pub open spec fn summation_order(order: int) -> Seq<Term> {
    series(order).reverse()
}

/// The polynomial coefficients of the series, for the powers 0 to 5 of the
/// time.
pub fn polynomial() -> (p: [i32; 6])
    ensures
        p@.map_values(|x: i32| x as int) == polynomial_coefficients(),
{
    let p = [9400, 380865, -12268, -7257411, 2798, 1562];
    assert(p@.map_values(|x: i32| x as int) =~= polynomial_coefficients());
    p
}

/// The constant terms, as published.
fn published_0() -> (terms: Vec<Term>)
    ensures
        terms@ == series_0(),
{
    let terms = vec![
        Term { nfa: [0, 0, 0, 0, 1, 0, 0, 0], s: -264073, c: 39 },
        Term { nfa: [0, 0, 0, 0, 2, 0, 0, 0], s: -6353, c: 2 },
        Term { nfa: [0, 0, 2, -2, 3, 0, 0, 0], s: -1175, c: -1 },
        Term { nfa: [0, 0, 2, -2, 1, 0, 0, 0], s: -1121, c: -1 },
        Term { nfa: [0, 0, 2, -2, 2, 0, 0, 0], s: 457, c: 0 },
        Term { nfa: [0, 0, 2, 0, 3, 0, 0, 0], s: -202, c: 0 },
        Term { nfa: [0, 0, 2, 0, 1, 0, 0, 0], s: -198, c: 0 },
        Term { nfa: [0, 0, 0, 0, 3, 0, 0, 0], s: 172, c: 0 },
        Term { nfa: [0, 1, 0, 0, 1, 0, 0, 0], s: 141, c: 1 },
        Term { nfa: [0, 1, 0, 0, -1, 0, 0, 0], s: 126, c: 1 },
        Term { nfa: [1, 0, 0, 0, -1, 0, 0, 0], s: 63, c: 0 },
        Term { nfa: [1, 0, 0, 0, 1, 0, 0, 0], s: 63, c: 0 },
        Term { nfa: [0, 1, 2, -2, 3, 0, 0, 0], s: -46, c: 0 },
        Term { nfa: [0, 1, 2, -2, 1, 0, 0, 0], s: -45, c: 0 },
        Term { nfa: [0, 0, 4, -4, 4, 0, 0, 0], s: -36, c: 0 },
        Term { nfa: [0, 0, 1, -1, 1, -8, 12, 0], s: 24, c: 12 },
        Term { nfa: [0, 0, 2, 0, 0, 0, 0, 0], s: -32, c: 0 },
        Term { nfa: [0, 0, 2, 0, 2, 0, 0, 0], s: -28, c: 0 },
        Term { nfa: [1, 0, 2, 0, 3, 0, 0, 0], s: -27, c: 0 },
        Term { nfa: [1, 0, 2, 0, 1, 0, 0, 0], s: -26, c: 0 },
        Term { nfa: [0, 0, 2, -2, 0, 0, 0, 0], s: 21, c: 0 },
        Term { nfa: [0, 1, -2, 2, -3, 0, 0, 0], s: -19, c: 0 },
        Term { nfa: [0, 1, -2, 2, -1, 0, 0, 0], s: -18, c: 0 },
        Term { nfa: [0, 0, 0, 0, 0, 8, -13, -1], s: 10, c: -5 },
        Term { nfa: [0, 0, 0, 2, 0, 0, 0, 0], s: -15, c: 0 },
        Term { nfa: [2, 0, -2, 0, -1, 0, 0, 0], s: 14, c: 0 },
        Term { nfa: [0, 1, 2, -2, 2, 0, 0, 0], s: 14, c: 0 },
        Term { nfa: [1, 0, 0, -2, 1, 0, 0, 0], s: -14, c: 0 },
        Term { nfa: [1, 0, 0, -2, -1, 0, 0, 0], s: -14, c: 0 },
        Term { nfa: [0, 0, 4, -2, 4, 0, 0, 0], s: -13, c: 0 },
        Term { nfa: [0, 0, 2, -2, 4, 0, 0, 0], s: 11, c: 0 },
        Term { nfa: [1, 0, -2, 0, -3, 0, 0, 0], s: -11, c: 0 },
        Term { nfa: [1, 0, -2, 0, -1, 0, 0, 0], s: -11, c: 0 },
    ];
    assert(terms@ =~~= series_0());
    terms
}

/// The terms in t, as published.
fn published_1() -> (terms: Vec<Term>)
    ensures
        terms@ == series_1(),
{
    let terms = vec![
        Term { nfa: [0, 0, 0, 0, 2, 0, 0, 0], s: -7, c: 357 },
        Term { nfa: [0, 0, 0, 0, 1, 0, 0, 0], s: 173, c: -3 },
        Term { nfa: [0, 0, 2, -2, 3, 0, 0, 0], s: 0, c: 48 },
    ];
    assert(terms@ =~~= series_1());
    terms
}

/// The terms in t^2, as published.
fn published_2() -> (terms: Vec<Term>)
    ensures
        terms@ == series_2(),
{
    let terms = vec![
        Term { nfa: [0, 0, 0, 0, 1, 0, 0, 0], s: 74352, c: -17 },
        Term { nfa: [0, 0, 2, -2, 2, 0, 0, 0], s: 5691, c: 6 },
        Term { nfa: [0, 0, 2, 0, 2, 0, 0, 0], s: 984, c: -1 },
        Term { nfa: [0, 0, 0, 0, 2, 0, 0, 0], s: -885, c: 1 },
        Term { nfa: [0, 1, 0, 0, 0, 0, 0, 0], s: -638, c: -5 },
        Term { nfa: [1, 0, 0, 0, 0, 0, 0, 0], s: -307, c: 0 },
        Term { nfa: [0, 1, 2, -2, 2, 0, 0, 0], s: 223, c: 0 },
        Term { nfa: [0, 0, 2, 0, 1, 0, 0, 0], s: 167, c: 0 },
        Term { nfa: [1, 0, 2, 0, 2, 0, 0, 0], s: 130, c: 0 },
        Term { nfa: [0, 1, -2, 2, -2, 0, 0, 0], s: 93, c: 0 },
        Term { nfa: [1, 0, 0, -2, 0, 0, 0, 0], s: 68, c: 0 },
        Term { nfa: [0, 0, 2, -2, 1, 0, 0, 0], s: -55, c: 0 },
        Term { nfa: [1, 0, -2, 0, -2, 0, 0, 0], s: 53, c: 0 },
        Term { nfa: [0, 0, 0, 2, 0, 0, 0, 0], s: -27, c: 0 },
        Term { nfa: [1, 0, 0, 0, 1, 0, 0, 0], s: -27, c: 0 },
        Term { nfa: [1, 0, -2, -2, -2, 0, 0, 0], s: -26, c: 0 },
        Term { nfa: [1, 0, 0, 0, -1, 0, 0, 0], s: -25, c: 0 },
        Term { nfa: [1, 0, 2, 0, 1, 0, 0, 0], s: 22, c: 0 },
        Term { nfa: [2, 0, 0, -2, 0, 0, 0, 0], s: -21, c: 0 },
        Term { nfa: [2, 0, -2, 0, -1, 0, 0, 0], s: 20, c: 0 },
        Term { nfa: [0, 0, 2, 2, 2, 0, 0, 0], s: 17, c: 0 },
        Term { nfa: [2, 0, 2, 0, 2, 0, 0, 0], s: 13, c: 0 },
        Term { nfa: [2, 0, 0, 0, 0, 0, 0, 0], s: -13, c: 0 },
        Term { nfa: [1, 0, 2, -2, 2, 0, 0, 0], s: -12, c: 0 },
        Term { nfa: [0, 0, 2, 0, 0, 0, 0, 0], s: -11, c: 0 },
    ];
    assert(terms@ =~~= series_2());
    terms
}

/// The terms in t^3, as published.
fn published_3() -> (terms: Vec<Term>)
    ensures
        terms@ == series_3(),
{
    let terms = vec![
        Term { nfa: [0, 0, 0, 0, 1, 0, 0, 0], s: 30, c: -2342 },
        Term { nfa: [0, 0, 2, -2, 2, 0, 0, 0], s: -3, c: -146 },
        Term { nfa: [0, 0, 2, 0, 2, 0, 0, 0], s: -1, c: -25 },
        Term { nfa: [0, 0, 0, 0, 2, 0, 0, 0], s: 0, c: 23 },
    ];
    assert(terms@ =~~= series_3());
    terms
}

/// The terms in t^4, as published.
fn published_4() -> (terms: Vec<Term>)
    ensures
        terms@ == series_4(),
{
    let terms = vec![
        Term { nfa: [0, 0, 0, 0, 1, 0, 0, 0], s: -26, c: -1 },
    ];
    assert(terms@ =~~= series_4());
    terms
}

/// The terms that go with the power `order` of the time, as published.
pub fn published_terms(order: usize) -> (terms: Vec<Term>)
    ensures
        terms@ == series(order as int),
{
    if order == 0 {
        published_0()
    } else if order == 1 {
        published_1()
    } else if order == 2 {
        published_2()
    } else if order == 3 {
        published_3()
    } else if order == 4 {
        published_4()
    } else {
        Vec::new()
    }
}

/// The terms that go with the power `order` of the time, in the order in
/// which they are to be summed: the last published first.
pub fn terms_to_sum(order: usize) -> (terms: Vec<Term>)
    ensures
        terms@ == summation_order(order as int),
{
    let published = published_terms(order);
    let mut terms: Vec<Term> = Vec::new();
    let mut left: usize = published.len();
    while left > 0
        invariant
            left <= published.len(),
            terms.len() == published.len() - left,
            forall|i: int|
                0 <= i < terms.len() ==> terms[i] == published[published.len() - 1 - i],
        decreases left,
    {
        left -= 1;
        terms.push(published[left]);
    }
    assert(terms@ =~= published@.reverse());
    terms
}

/// How many terms go with each power of the time: 66 in all.
pub proof fn lemma_series_lengths()
    ensures
        series(0).len() == 33,
        series(1).len() == 3,
        series(2).len() == 25,
        series(3).len() == 4,
        series(4).len() == 1,
        forall|order: int| order < 0 || order > 4 ==> series(order).len() == 0,
{
}

} // verus!
