use erfa::time::s06::{
    polynomial, published_terms, terms_to_sum, Term, HIGHEST_ORDER, UNITS_PER_ARCSECOND,
};

/// A coefficient in arcseconds.
fn arcseconds(units: i32) -> f64 {
    f64::from(units) / f64::from(UNITS_PER_ARCSECOND)
}

/// The published series: multipliers, and amplitudes in arcseconds.
fn published(order: usize) -> Vec<([i32; 8], f64, f64)> {
    match order {
        0 => vec![
            ([0, 0, 0, 0, 1, 0, 0, 0], -2640.73e-6, 0.39e-6),
            ([0, 0, 0, 0, 2, 0, 0, 0], -63.53e-6, 0.02e-6),
            ([0, 0, 2, -2, 3, 0, 0, 0], -11.75e-6, -0.01e-6),
            ([0, 0, 2, -2, 1, 0, 0, 0], -11.21e-6, -0.01e-6),
            ([0, 0, 2, -2, 2, 0, 0, 0], 4.57e-6, 0.00e-6),
            ([0, 0, 2, 0, 3, 0, 0, 0], -2.02e-6, 0.00e-6),
            ([0, 0, 2, 0, 1, 0, 0, 0], -1.98e-6, 0.00e-6),
            ([0, 0, 0, 0, 3, 0, 0, 0], 1.72e-6, 0.00e-6),
            ([0, 1, 0, 0, 1, 0, 0, 0], 1.41e-6, 0.01e-6),
            ([0, 1, 0, 0, -1, 0, 0, 0], 1.26e-6, 0.01e-6),
            ([1, 0, 0, 0, -1, 0, 0, 0], 0.63e-6, 0.00e-6),
            ([1, 0, 0, 0, 1, 0, 0, 0], 0.63e-6, 0.00e-6),
            ([0, 1, 2, -2, 3, 0, 0, 0], -0.46e-6, 0.00e-6),
            ([0, 1, 2, -2, 1, 0, 0, 0], -0.45e-6, 0.00e-6),
            ([0, 0, 4, -4, 4, 0, 0, 0], -0.36e-6, 0.00e-6),
            ([0, 0, 1, -1, 1, -8, 12, 0], 0.24e-6, 0.12e-6),
            ([0, 0, 2, 0, 0, 0, 0, 0], -0.32e-6, 0.00e-6),
            ([0, 0, 2, 0, 2, 0, 0, 0], -0.28e-6, 0.00e-6),
            ([1, 0, 2, 0, 3, 0, 0, 0], -0.27e-6, 0.00e-6),
            ([1, 0, 2, 0, 1, 0, 0, 0], -0.26e-6, 0.00e-6),
            ([0, 0, 2, -2, 0, 0, 0, 0], 0.21e-6, 0.00e-6),
            ([0, 1, -2, 2, -3, 0, 0, 0], -0.19e-6, 0.00e-6),
            ([0, 1, -2, 2, -1, 0, 0, 0], -0.18e-6, 0.00e-6),
            ([0, 0, 0, 0, 0, 8, -13, -1], 0.10e-6, -0.05e-6),
            ([0, 0, 0, 2, 0, 0, 0, 0], -0.15e-6, 0.00e-6),
            ([2, 0, -2, 0, -1, 0, 0, 0], 0.14e-6, 0.00e-6),
            ([0, 1, 2, -2, 2, 0, 0, 0], 0.14e-6, 0.00e-6),
            ([1, 0, 0, -2, 1, 0, 0, 0], -0.14e-6, 0.00e-6),
            ([1, 0, 0, -2, -1, 0, 0, 0], -0.14e-6, 0.00e-6),
            ([0, 0, 4, -2, 4, 0, 0, 0], -0.13e-6, 0.00e-6),
            ([0, 0, 2, -2, 4, 0, 0, 0], 0.11e-6, 0.00e-6),
            ([1, 0, -2, 0, -3, 0, 0, 0], -0.11e-6, 0.00e-6),
            ([1, 0, -2, 0, -1, 0, 0, 0], -0.11e-6, 0.00e-6),
        ],
        1 => vec![
            ([0, 0, 0, 0, 2, 0, 0, 0], -0.07e-6, 3.57e-6),
            ([0, 0, 0, 0, 1, 0, 0, 0], 1.73e-6, -0.03e-6),
            ([0, 0, 2, -2, 3, 0, 0, 0], 0.00e-6, 0.48e-6),
        ],
        2 => vec![
            ([0, 0, 0, 0, 1, 0, 0, 0], 743.52e-6, -0.17e-6),
            ([0, 0, 2, -2, 2, 0, 0, 0], 56.91e-6, 0.06e-6),
            ([0, 0, 2, 0, 2, 0, 0, 0], 9.84e-6, -0.01e-6),
            ([0, 0, 0, 0, 2, 0, 0, 0], -8.85e-6, 0.01e-6),
            ([0, 1, 0, 0, 0, 0, 0, 0], -6.38e-6, -0.05e-6),
            ([1, 0, 0, 0, 0, 0, 0, 0], -3.07e-6, 0.00e-6),
            ([0, 1, 2, -2, 2, 0, 0, 0], 2.23e-6, 0.00e-6),
            ([0, 0, 2, 0, 1, 0, 0, 0], 1.67e-6, 0.00e-6),
            ([1, 0, 2, 0, 2, 0, 0, 0], 1.30e-6, 0.00e-6),
            ([0, 1, -2, 2, -2, 0, 0, 0], 0.93e-6, 0.00e-6),
            ([1, 0, 0, -2, 0, 0, 0, 0], 0.68e-6, 0.00e-6),
            ([0, 0, 2, -2, 1, 0, 0, 0], -0.55e-6, 0.00e-6),
            ([1, 0, -2, 0, -2, 0, 0, 0], 0.53e-6, 0.00e-6),
            ([0, 0, 0, 2, 0, 0, 0, 0], -0.27e-6, 0.00e-6),
            ([1, 0, 0, 0, 1, 0, 0, 0], -0.27e-6, 0.00e-6),
            ([1, 0, -2, -2, -2, 0, 0, 0], -0.26e-6, 0.00e-6),
            ([1, 0, 0, 0, -1, 0, 0, 0], -0.25e-6, 0.00e-6),
            ([1, 0, 2, 0, 1, 0, 0, 0], 0.22e-6, 0.00e-6),
            ([2, 0, 0, -2, 0, 0, 0, 0], -0.21e-6, 0.00e-6),
            ([2, 0, -2, 0, -1, 0, 0, 0], 0.20e-6, 0.00e-6),
            ([0, 0, 2, 2, 2, 0, 0, 0], 0.17e-6, 0.00e-6),
            ([2, 0, 2, 0, 2, 0, 0, 0], 0.13e-6, 0.00e-6),
            ([2, 0, 0, 0, 0, 0, 0, 0], -0.13e-6, 0.00e-6),
            ([1, 0, 2, -2, 2, 0, 0, 0], -0.12e-6, 0.00e-6),
            ([0, 0, 2, 0, 0, 0, 0, 0], -0.11e-6, 0.00e-6),
        ],
        3 => vec![
            ([0, 0, 0, 0, 1, 0, 0, 0], 0.30e-6, -23.42e-6),
            ([0, 0, 2, -2, 2, 0, 0, 0], -0.03e-6, -1.46e-6),
            ([0, 0, 2, 0, 2, 0, 0, 0], -0.01e-6, -0.25e-6),
            ([0, 0, 0, 0, 2, 0, 0, 0], 0.00e-6, 0.23e-6),
        ],
        4 => vec![
            ([0, 0, 0, 0, 1, 0, 0, 0], -0.26e-6, -0.01e-6),
        ],
        _ => vec![],
    }
}

#[test]
fn every_term_is_the_published_one() {
    for order in 0..=HIGHEST_ORDER {
        let expected = published(order);
        let terms = published_terms(order);
        assert_eq!(terms.len(), expected.len());
        for (term, (nfa, s, c)) in terms.iter().zip(expected) {
            assert_eq!(term.nfa, nfa);
            assert_eq!(arcseconds(term.s).to_bits(), s.to_bits());
            assert_eq!(arcseconds(term.c).to_bits(), c.to_bits());
        }
    }
}

#[test]
fn each_power_has_its_number_of_terms() {
    assert_eq!(published_terms(0).len(), 33);
    assert_eq!(published_terms(1).len(), 3);
    assert_eq!(published_terms(2).len(), 25);
    assert_eq!(published_terms(3).len(), 4);
    assert_eq!(published_terms(4).len(), 1);
    assert_eq!(terms_to_sum(0).len(), 33);
    assert_eq!(terms_to_sum(1).len(), 3);
    assert_eq!(terms_to_sum(2).len(), 25);
    assert_eq!(terms_to_sum(3).len(), 4);
    assert_eq!(terms_to_sum(4).len(), 1);
}

#[test]
fn higher_powers_have_no_terms() {
    for order in [5, 6, 100, usize::MAX] {
        assert!(published_terms(order).is_empty());
        assert!(terms_to_sum(order).is_empty());
    }
}

#[test]
fn the_largest_term_is_published_first() {
    let first = published_terms(0)[0];
    assert_eq!(first, Term { nfa: [0, 0, 0, 0, 1, 0, 0, 0], s: -264073, c: 39 });
    assert_eq!(arcseconds(first.s), -2640.73e-6);
    assert_eq!(arcseconds(first.c), 0.39e-6);
}

#[test]
fn the_last_published_term_is_summed_first() {
    let first = terms_to_sum(0)[0];
    assert_eq!(first, Term { nfa: [1, 0, -2, 0, -1, 0, 0, 0], s: -11, c: 0 });
    let last = terms_to_sum(0)[32];
    assert_eq!(last, Term { nfa: [0, 0, 0, 0, 1, 0, 0, 0], s: -264073, c: 39 });
    assert_eq!(
        terms_to_sum(1),
        vec![
            Term { nfa: [0, 0, 2, -2, 3, 0, 0, 0], s: 0, c: 48 },
            Term { nfa: [0, 0, 0, 0, 1, 0, 0, 0], s: 173, c: -3 },
            Term { nfa: [0, 0, 0, 0, 2, 0, 0, 0], s: -7, c: 357 },
        ]
    );
}

#[test]
fn terms_are_summed_in_reverse() {
    for order in 0..=HIGHEST_ORDER + 1 {
        let mut expected = published_terms(order);
        expected.reverse();
        assert_eq!(terms_to_sum(order), expected);
    }
}

#[test]
fn polynomial_is_the_published_one() {
    let expected = [94.00e-6, 3808.65e-6, -122.68e-6, -72574.11e-6, 27.98e-6, 15.62e-6];
    let p = polynomial();
    assert_eq!(p, [9400, 380865, -12268, -7257411, 2798, 1562]);
    for i in 0..6 {
        assert_eq!(arcseconds(p[i]).to_bits(), f64::to_bits(expected[i]));
    }
}

#[test]
fn no_argument_comes_twice_for_one_power() {
    for order in 0..=HIGHEST_ORDER {
        let terms = published_terms(order);
        for i in 0..terms.len() {
            for j in 0..i {
                assert_ne!(terms[i].nfa, terms[j].nfa);
            }
        }
    }
}
