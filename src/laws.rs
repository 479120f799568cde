//! Laws that relate the operations on quantities.
use vstd::prelude::*;
use crate::quantity::{total, Quantity};
use crate::ratio::{is_isqrt, isqrt, lemma_isqrt_unique, Ratio};
use core::cmp::Ordering;

verus! {

/// Adding a quantity and then subtracting it again gives back the value
/// that was there before, and a quantity minus itself is zero.
pub proof fn law_add_then_sub<U>(a: Quantity<U>, b: Quantity<U>)
    requires
        a.value.sum_ok(b.value),
        a.value.sum(b.value).difference_ok(b.value),
        a.value.difference_ok(a.value),
    ensures
        a.value.sum(b.value).difference(b.value).same(a.value),
        a.value.difference(a.value).n() == 0,
{
    let (an, ad, bn, bd) = (a.value.n(), a.value.d(), b.value.n(), b.value.d());
    assert(((an * bd + bn * ad) * bd - bn * (ad * bd)) * ad == an * ((ad * bd) * bd))
        by (nonlinear_arith);
    assert(an * ad - an * ad == 0);
}

/// Scaling a quantity by a non-zero raw number and then dividing by that
/// number gives back the quantity.
pub proof fn law_scale_then_divide<U>(a: Quantity<U>, s: Ratio)
    requires
        a.value.product_ok(s),
        s.n() != 0,
        a.value.product(s).quotient_ok(s),
    ensures
        a.value.product(s).quotient(s).same(a.value),
{
    let (an, ad, sn, sd) = (a.value.n(), a.value.d(), s.n(), s.d());
    assert((an * sn) * sd * ad == an * ((ad * sd) * sn)) by (nonlinear_arith);
    assert(-((an * sn) * sd) * ad == an * -((ad * sd) * sn)) by (nonlinear_arith);
}

/// Along a relation `N / D = R`: dividing `n` by `d` and multiplying the
/// result by `d` gives back `n`, and multiplying `r` by `d` and dividing
/// by `d` gives back `r`.
pub proof fn law_relation_round_trip<N, D, R>(n: Quantity<N>, d: Quantity<D>, r: Quantity<R>)
    requires
        n.value.quotient_ok(d.value),
        n.value.quotient(d.value).product_ok(d.value),
        r.value.product_ok(d.value),
        r.value.product(d.value).quotient_ok(d.value),
    ensures
        n.value.quotient(d.value).product(d.value).same(n.value),
        r.value.product(d.value).quotient(d.value).same(r.value),
{
    let (nn, nd, dn, dd) = (n.value.n(), n.value.d(), d.value.n(), d.value.d());
    assert((nn * dd) * dn * nd == nn * ((nd * dn) * dd)) by (nonlinear_arith);
    assert((-(nn * dd)) * dn * nd == nn * ((-(nd * dn)) * dd)) by (nonlinear_arith);
    law_scale_then_divide(r, d.value);
}

/// The square root of the square of a non-negative quantity is that
/// quantity, and the square divided by the quantity is the quantity.
pub proof fn law_square_round_trip<B>(base: Quantity<B>)
    requires
        base.value.wf(),
        base.value.n() >= 0,
        base.value.product_ok(base.value),
    ensures
        base.value.product(base.value).root().same(base.value),
        base.value.n() != 0 && base.value.product(base.value).quotient_ok(base.value)
            ==> base.value.product(base.value).quotient(base.value).same(base.value),
{
    let (n, d) = (base.value.n(), base.value.d());
    let sq = base.value.product(base.value);
    assert(sq.n() == n * n && sq.d() == d * d);
    let x = (n * n) * (d * d);
    assert(is_isqrt(n * d, x)) by {
        assert((n * d) * (n * d) == x) by (nonlinear_arith)
            requires
                x == (n * n) * (d * d),
        ;
        assert(0 <= n * d) by (nonlinear_arith)
            requires
                n >= 0,
                d > 0,
        ;
        assert(x < (n * d + 1) * (n * d + 1)) by (nonlinear_arith)
            requires
                (n * d) * (n * d) == x,
                0 <= n * d,
        ;
    }
    assert(is_isqrt(isqrt(x), x));
    lemma_isqrt_unique(isqrt(x), n * d, x);
    assert(sq.n() * sq.d() == x);
    if n <= d {
        assert(n * d <= d * d) by (nonlinear_arith)
            requires
                0 <= n <= d,
        ;
    } else {
        assert(n * d <= n * n) by (nonlinear_arith)
            requires
                0 < d < n,
        ;
    }
    assert(sq.root().n() == n * d);
    assert(sq.root().d() == d * d);
    assert((n * d) * d == n * (d * d)) by (nonlinear_arith);
    if base.value.n() != 0 && sq.quotient_ok(base.value) {
        law_scale_then_divide(base, base.value);
    }
}

/// The sum of no quantities is zero.
pub proof fn law_sum_of_nothing<U>()
    ensures
        total(Seq::<Quantity<U>>::empty()).n() == 0,
{
}

/// Ordering and equality agree: two quantities compare as equal exactly
/// when they are equal.
pub proof fn law_order_agrees_with_equality<U>(a: Quantity<U>, b: Quantity<U>)
    requires
        a.wf(),
        b.wf(),
    ensures
        (a.value.compare(b.value) == Ordering::Equal) == a.value.same(b.value),
        a.value.compare(b.value) == Ordering::Less <==> b.value.compare(a.value) == Ordering::Greater,
{
}

} // verus!
