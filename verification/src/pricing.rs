//! The price of chosen service options.

use vstd::prelude::*;
use crate::counter::distinct;
use crate::listing::contains_id;
use crate::models::Serve;

verus! {

/// The service options whose id is among `ids`, in the order of the table.
pub open spec fn chosen_serves(serve: Seq<Serve>, ids: Seq<i32>) -> Seq<Serve> {
    serve.filter(|s: Serve| ids.contains(s.id))
}

/// The sum of the prices of service options.
pub open spec fn price_sum(serves: Seq<Serve>) -> int
    decreases serves.len(),
{
    if serves.len() == 0 {
        0
    } else {
        price_sum(serves.drop_last()) + serves.last().price
    }
}

/// The technical categories of service options, each once.
pub open spec fn tech_cat_ids(serves: Seq<Serve>) -> Seq<i32> {
    distinct(serves.map_values(|s: Serve| s.tech_cat_id))
}

proof fn lemma_price_sum_bounds(serves: Seq<Serve>)
    ensures
        -0x8000_0000 * serves.len() <= price_sum(serves) <= 0x7fff_ffff * serves.len(),
    decreases serves.len(),
{
    if serves.len() > 0 {
        lemma_price_sum_bounds(serves.drop_last());
    }
}

/// Looks up the chosen service options and returns the sum of their prices
/// and their technical categories. The sum is nothing where it does not fit
/// the price column.
pub fn price_of(serve: &Vec<Serve>, ids: &Vec<i32>) -> (result: (Option<i32>, Vec<i32>))
    ensures
        result.1@ == tech_cat_ids(chosen_serves(serve@, ids@)),
        match result.0 {
            Some(price) => price == price_sum(chosen_serves(serve@, ids@)),
            None => !(i32::MIN <= price_sum(chosen_serves(serve@, ids@)) <= i32::MAX),
        },
{
    let ghost pred = |s: Serve| ids@.contains(s.id);
    let ghost pick = |s: Serve| s.tech_cat_id;
    let mut sum: i128 = 0;
    let mut cats: Vec<i32> = Vec::new();
    let mut i: usize = 0;
    assert(serve@.take(0).filter(pred) =~= Seq::<Serve>::empty());
    assert(Seq::<Serve>::empty().map_values(pick) =~= Seq::<i32>::empty());
    while i < serve.len()
        invariant
            i <= serve.len(),
            pred == |s: Serve| ids@.contains(s.id),
            pick == |s: Serve| s.tech_cat_id,
            sum == price_sum(serve@.take(i as int).filter(pred)),
            serve@.take(i as int).filter(pred).len() <= i,
            cats@ == distinct(serve@.take(i as int).filter(pred).map_values(pick)),
        decreases serve.len() - i,
    {
        let ghost before = serve@.take(i as int).filter(pred);
        proof {
            assert(serve@.take(i + 1) =~= serve@.take(i as int).push(serve@[i as int]));
            Seq::lemma_filter_push(serve@.take(i as int), serve@[i as int], pred);
            lemma_price_sum_bounds(before);
        }
        if contains_id(ids, serve[i].id) {
            let ghost after = serve@.take(i + 1).filter(pred);
            proof {
                assert(after.drop_last() =~= before);
                assert(after.map_values(pick).drop_last() =~= before.map_values(pick));
            }
            assert(-0x8000_0000 * i <= sum <= 0x7fff_ffff * i) by (nonlinear_arith)
                requires
                    -0x8000_0000 * before.len() <= sum <= 0x7fff_ffff * before.len(),
                    before.len() <= i,
            ;
            assert(0x7fff_ffff * i <= 0x7fff_ffff * 0xffff_ffff_ffff_ffff) by (nonlinear_arith)
                requires
                    i <= 0xffff_ffff_ffff_ffff,
            ;
            assert(-0x8000_0000 * 0xffff_ffff_ffff_ffff <= -0x8000_0000 * i) by (nonlinear_arith)
                requires
                    i <= 0xffff_ffff_ffff_ffff,
            ;
            sum = sum + serve[i].price as i128;
            if !contains_id(&cats, serve[i].tech_cat_id) {
                cats.push(serve[i].tech_cat_id);
            }
        }
        i += 1;
    }
    assert(serve@.take(serve.len() as int) =~= serve@);
    if sum < -0x8000_0000 || sum > 0x7fff_ffff {
        (None, cats)
    } else {
        (Some(sum as i32), cats)
    }
}

} // verus!
