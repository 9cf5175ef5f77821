use vstd::prelude::*;

use rayon::iter::{IntoParallelRefIterator, ParallelIterator};

use crate::distance::{
    comoving_distance, comoving_trans_distance, comoving_volume, dist_mod, spec_comoving_distance,
    spec_comoving_trans_distance, spec_comoving_volume, spec_dist_mod,
};
use crate::error::CosmoError;
use crate::fixed::{res_v, Fx};
use crate::inverse::{inverse_age, spec_inverse_age};
use crate::params::CosmologyParameters;
use crate::time::{spec_universe_age, universe_age};

verus! {

/// The views of a sequence of fixed-point values.
pub open spec fn seq_v(s: Seq<Fx>) -> Seq<int> {
    s.map_values(|f: Fx| f@)
}

/// The views of a sequence of fallible fixed-point results.
pub open spec fn view_results(s: Seq<Result<Fx, CosmoError>>) -> Seq<Result<int, CosmoError>> {
    s.map_values(|r: Result<Fx, CosmoError>| res_v(r))
}

/// The view of a whole-batch result: the element views on success, the
/// error unchanged.
pub open spec fn res_vec_v(r: Result<Vec<Fx>, CosmoError>) -> Result<Seq<int>, CosmoError> {
    match r {
        Ok(v) => Ok(seq_v(v@)),
        Err(e) => Err(e),
    }
}

/// Collapses per-element results into a whole-batch result: the sequence of
/// values if every element succeeded, otherwise the earliest error.
pub open spec fn spec_collect(s: Seq<Result<int, CosmoError>>) -> Result<Seq<int>, CosmoError>
    decreases s.len(),
{
    if s.len() == 0 {
        Ok(Seq::empty())
    } else {
        match s[0] {
            Err(e) => Err(e),
            Ok(v) => match spec_collect(s.drop_first()) {
                Err(e) => Err(e),
                Ok(t) => Ok(seq![v] + t),
            },
        }
    }
}

/// Appending an element to a batch extends a successful collapse by its
/// value and leaves an earlier error in place.
proof fn lemma_collect_push(s: Seq<Result<int, CosmoError>>, x: Result<int, CosmoError>)
    ensures
        spec_collect(s.push(x)) == (match spec_collect(s) {
            Err(e) => Err::<Seq<int>, CosmoError>(e),
            Ok(t) => match x {
                Err(e) => Err::<Seq<int>, CosmoError>(e),
                Ok(v) => Ok::<Seq<int>, CosmoError>(t.push(v)),
            },
        }),
    decreases s.len(),
{
    if s.len() == 0 {
        assert(s.push(x)[0] == x);
        assert(s.push(x).drop_first() =~= Seq::<Result<int, CosmoError>>::empty());
        assert(spec_collect(s) == Ok::<Seq<int>, CosmoError>(Seq::empty()));
        match x {
            Err(e) => {
                assert(spec_collect(s.push(x)) == Err::<Seq<int>, CosmoError>(e));
            },
            Ok(v) => {
                assert(spec_collect(s.push(x).drop_first()) == Ok::<Seq<int>, CosmoError>(
                    Seq::empty(),
                ));
                assert(spec_collect(s.push(x)) == Ok::<Seq<int>, CosmoError>(
                    seq![v] + Seq::<int>::empty(),
                ));
                assert(seq![v] + Seq::<int>::empty() =~= Seq::<int>::empty().push(v));
            },
        }
    } else {
        assert(s.push(x)[0] == s[0]);
        assert(s.push(x).drop_first() =~= s.drop_first().push(x));
        lemma_collect_push(s.drop_first(), x);
        match s[0] {
            Err(_) => {},
            Ok(v) => match spec_collect(s.drop_first()) {
                Err(_) => {},
                Ok(t) => match x {
                    Err(_) => {},
                    Ok(w) => {
                        assert(spec_collect(s.drop_first().push(x)) == Ok::<Seq<int>, CosmoError>(
                            t.push(w),
                        ));
                        assert(spec_collect(s.push(x)) == Ok::<Seq<int>, CosmoError>(
                            seq![v] + t.push(w),
                        ));
                        assert(seq![v] + t.push(w) =~= (seq![v] + t).push(w));
                        assert(spec_collect(s) == Ok::<Seq<int>, CosmoError>(seq![v] + t));
                    },
                },
            },
        }
    }
}

/// If every element before position `i` succeeded and the element at `i`
/// failed, the whole batch collapses to that failure.
proof fn lemma_collect_prefix_err(s: Seq<Result<int, CosmoError>>, i: int)
    requires
        0 <= i < s.len(),
        spec_collect(s.take(i)) is Ok,
        s[i] is Err,
    ensures
        spec_collect(s) == Err::<Seq<int>, CosmoError>(s[i]->Err_0),
    decreases i,
{
    if i == 0 {
    } else {
        assert(s.take(i)[0] == s[0]);
        assert(s.take(i).drop_first() =~= s.drop_first().take(i - 1));
        lemma_collect_prefix_err(s.drop_first(), i - 1);
    }
}

/// A successful batch collapse is index-aligned with its elements: the
/// output has one value per input, each the success of the element at the
/// same position; and a batch whose elements all succeed collapses
/// successfully.
pub proof fn lemma_collect_elementwise(s: Seq<Result<int, CosmoError>>)
    ensures
        spec_collect(s) matches Ok(t) ==> t.len() == s.len() && (forall|i: int|
            0 <= i < s.len() ==> s[i] == Ok::<int, CosmoError>(t[i])),
        (forall|i: int| 0 <= i < s.len() ==> s[i] is Ok) ==> spec_collect(s) is Ok,
    decreases s.len(),
{
    if s.len() == 0 {
    } else {
        lemma_collect_elementwise(s.drop_first());
        assert(forall|i: int| 0 <= i < s.drop_first().len() ==> s.drop_first()[i] == s[i + 1]);
        if spec_collect(s) is Ok {
            let t = spec_collect(s)->Ok_0;
            let t2 = spec_collect(s.drop_first())->Ok_0;
            assert forall|i: int| 0 <= i < s.len() implies s[i] == Ok::<int, CosmoError>(
                t[i],
            ) by {
                if i > 0 {
                    assert(s.drop_first()[i - 1] == Ok::<int, CosmoError>(t2[i - 1]));
                    assert(t[i] == (seq![s[0]->Ok_0] + t2)[i]);
                }
            }
        }
        if forall|i: int| 0 <= i < s.len() ==> s[i] is Ok {
            assert(s[0] is Ok);
            assert(forall|i: int| 0 <= i < s.drop_first().len() ==> s.drop_first()[i] is Ok);
        }
    }
}

/// Collapses per-element results, mirroring [`spec_collect`] over the
/// element views: the whole batch fails on the earliest per-element error.
fn collect_ok(v: Vec<Result<Fx, CosmoError>>) -> (out: Result<Vec<Fx>, CosmoError>)
    ensures
        res_vec_v(out) == spec_collect(view_results(v@)),
{
    let n = v.len();
    let mut acc: Vec<Fx> = Vec::new();
    let mut i: usize = 0;
    proof {
        assert(v@.take(0) =~= Seq::<Result<Fx, CosmoError>>::empty());
        assert(view_results(Seq::<Result<Fx, CosmoError>>::empty()) =~= Seq::<
            Result<int, CosmoError>,
        >::empty());
        assert(seq_v(acc@) =~= Seq::<int>::empty());
    }
    while i < n
        invariant
            i <= n,
            n == v@.len(),
            acc@.len() == i,
            spec_collect(view_results(v@.take(i as int))) == Ok::<Seq<int>, CosmoError>(
                seq_v(acc@),
            ),
        decreases n - i,
    {
        let ghost pre = v@.take(i as int);
        let ghost preacc = acc@;
        match v[i] {
            Err(e) => {
                proof {
                    assert(view_results(v@).take(i as int) =~= view_results(pre));
                    lemma_collect_prefix_err(view_results(v@), i as int);
                }
                return Err(e);
            },
            Ok(f) => {
                acc.push(f);
                i = i + 1;
                proof {
                    assert(v@.take(i as int) =~= pre.push(v@[i - 1]));
                    assert(view_results(pre.push(v@[i - 1])) =~= view_results(pre).push(
                        res_v(v@[i - 1]),
                    ));
                    lemma_collect_push(view_results(pre), res_v(v@[i - 1]));
                    assert(seq_v(preacc).push(f@) =~= seq_v(acc@));
                }
            },
        }
    }
    proof {
        assert(v@.take(n as int) =~= v@);
    }
    Ok(acc)
}

/// Relies on rayon's `par_iter`/`map`/`collect`: an indexed parallel map
/// collects into a vector in input order, each element the result of
/// `comoving_distance` on the element at the same position.
#[verifier::external_body]
fn par_map_comoving(zs: &Vec<Fx>, params: CosmologyParameters) -> (r: Vec<Result<Fx, CosmoError>>)
    ensures
        r@.len() == zs@.len(),
        forall|i: int|
            0 <= i < zs@.len() ==> res_v(r@[i]) == spec_comoving_distance(
                zs@[i]@,
                params.omega_m@,
                params.omega_k@,
                params.omega_l@,
                params.h0@,
            ),
{
    zs.par_iter().map(|z| comoving_distance(*z, params)).collect()
}

/// Relies on rayon's `par_iter`/`map`/`collect`: an indexed parallel map
/// collects into a vector in input order, each element the result of
/// `comoving_trans_distance` on the element at the same position.
#[verifier::external_body]
fn par_map_trans(zs: &Vec<Fx>, params: CosmologyParameters) -> (r: Vec<Result<Fx, CosmoError>>)
    ensures
        r@.len() == zs@.len(),
        forall|i: int|
            0 <= i < zs@.len() ==> res_v(r@[i]) == spec_comoving_trans_distance(
                zs@[i]@,
                params.omega_m@,
                params.omega_k@,
                params.omega_l@,
                params.h0@,
            ),
{
    zs.par_iter().map(|z| comoving_trans_distance(*z, params)).collect()
}

/// Relies on rayon's `par_iter`/`map`/`collect`: an indexed parallel map
/// collects into a vector in input order, each element the result of
/// `dist_mod` on the element at the same position.
#[verifier::external_body]
fn par_map_dist_mod(zs: &Vec<Fx>, params: CosmologyParameters) -> (r: Vec<Result<Fx, CosmoError>>)
    ensures
        r@.len() == zs@.len(),
        forall|i: int|
            0 <= i < zs@.len() ==> res_v(r@[i]) == spec_dist_mod(
                zs@[i]@,
                params.omega_m@,
                params.omega_k@,
                params.omega_l@,
                params.h0@,
            ),
{
    zs.par_iter().map(|z| dist_mod(*z, params)).collect()
}

/// Relies on rayon's `par_iter`/`map`/`collect`: an indexed parallel map
/// collects into a vector in input order, each element the result of
/// `comoving_volume` on the element at the same position.
#[verifier::external_body]
fn par_map_volume(zs: &Vec<Fx>, params: CosmologyParameters) -> (r: Vec<Result<Fx, CosmoError>>)
    ensures
        r@.len() == zs@.len(),
        forall|i: int|
            0 <= i < zs@.len() ==> res_v(r@[i]) == spec_comoving_volume(
                zs@[i]@,
                params.omega_m@,
                params.omega_k@,
                params.omega_l@,
                params.h0@,
            ),
{
    zs.par_iter().map(|z| comoving_volume(*z, params)).collect()
}

/// Relies on rayon's `par_iter`/`map`/`collect`: an indexed parallel map
/// collects into a vector in input order, each element the result of
/// `universe_age` on the element at the same position.
#[verifier::external_body]
fn par_map_age(zs: &Vec<Fx>, params: CosmologyParameters) -> (r: Vec<Result<Fx, CosmoError>>)
    ensures
        r@.len() == zs@.len(),
        forall|i: int|
            0 <= i < zs@.len() ==> res_v(r@[i]) == spec_universe_age(
                zs@[i]@,
                params.omega_m@,
                params.omega_k@,
                params.omega_l@,
                params.h0@,
            ),
{
    zs.par_iter().map(|z| universe_age(*z, params)).collect()
}

/// Relies on rayon's `par_iter`/`map`/`collect`: an indexed parallel map
/// collects into a vector in input order, each element the result of
/// `inverse_age` on the element at the same position.
#[verifier::external_body]
fn par_map_inverse_age(
    ages: &Vec<Fx>,
    params: CosmologyParameters,
) -> (r: Vec<Result<Fx, CosmoError>>)
    ensures
        r@.len() == ages@.len(),
        forall|i: int|
            0 <= i < ages@.len() ==> res_v(r@[i]) == spec_inverse_age(
                ages@[i]@,
                params.omega_m@,
                params.omega_k@,
                params.omega_l@,
                params.h0@,
            ),
{
    ages.par_iter().map(|a| inverse_age(*a, params)).collect()
}

/// The comoving distances of a sequence of redshifts, index-aligned with
/// the input; the earliest per-element failure fails the whole batch.
pub open spec fn spec_comoving_distances(zs: Seq<int>, om: int, ok: int, ol: int, h0: int) -> Result<
    Seq<int>,
    CosmoError,
> {
    spec_collect(zs.map_values(|z: int| spec_comoving_distance(z, om, ok, ol, h0)))
}

/// Calculates multiple comoving distances in Mpc, in parallel and in input
/// order, mirroring [`spec_comoving_distances`].
pub fn comoving_distances(zs: Vec<Fx>, params: CosmologyParameters) -> (out: Result<
    Vec<Fx>,
    CosmoError,
>)
    ensures
        res_vec_v(out) == spec_comoving_distances(
            seq_v(zs@),
            params.omega_m@,
            params.omega_k@,
            params.omega_l@,
            params.h0@,
        ),
{
    let raw = par_map_comoving(&zs, params);
    proof {
        assert(view_results(raw@) =~= seq_v(zs@).map_values(
            |z: int|
                spec_comoving_distance(
                    z,
                    params.omega_m@,
                    params.omega_k@,
                    params.omega_l@,
                    params.h0@,
                ),
        ));
    }
    collect_ok(raw)
}

/// Collapsing a mapped batch preserves input order: a successful batch
/// holds, at each position, exactly the scalar result of the input at that
/// position; and if every scalar result succeeds, the batch succeeds.
pub proof fn lemma_mapped_collect_elementwise(
    zs: Seq<int>,
    f: spec_fn(int) -> Result<int, CosmoError>,
)
    ensures
        spec_collect(zs.map_values(f)) matches Ok(ds) ==> ds.len() == zs.len() && (forall|i: int|
            0 <= i < zs.len() ==> f(zs[i]) == Ok::<int, CosmoError>(ds[i])),
        (forall|i: int| 0 <= i < zs.len() ==> f(zs[i]) is Ok) ==> spec_collect(
            zs.map_values(f),
        ) is Ok,
{
    let mapped = zs.map_values(f);
    lemma_collect_elementwise(mapped);
    assert(forall|i: int| 0 <= i < zs.len() ==> mapped[i] == f(zs[i]));
    match spec_collect(mapped) {
        Err(_) => {},
        Ok(ds) => {
            assert forall|i: int| 0 <= i < zs.len() implies f(zs[i]) == Ok::<int, CosmoError>(
                ds[i],
            ) by {
                assert(mapped[i] == Ok::<int, CosmoError>(ds[i]));
            }
        },
    }
}

/// Every batch of comoving distances preserves input order: a successful
/// batch holds, at each position, exactly the comoving distance of the
/// input redshift at that position; and if every element succeeds, the
/// batch succeeds.
#[verifier::rlimit(100)]
pub proof fn lemma_comoving_distances_elementwise(
    zs: Seq<int>,
    om: int,
    ok: int,
    ol: int,
    h0: int,
)
    ensures
        spec_comoving_distances(zs, om, ok, ol, h0) matches Ok(ds) ==> ds.len() == zs.len() && (
        forall|i: int|
            0 <= i < zs.len() ==> spec_comoving_distance(zs[i], om, ok, ol, h0) == Ok::<
                int,
                CosmoError,
            >(ds[i])),
        (forall|i: int| 0 <= i < zs.len() ==> spec_comoving_distance(zs[i], om, ok, ol, h0) is Ok)
            ==> spec_comoving_distances(zs, om, ok, ol, h0) is Ok,
{
    lemma_mapped_collect_elementwise(zs, |z: int| spec_comoving_distance(z, om, ok, ol, h0));
}

/// The transverse comoving distances of a sequence of redshifts,
/// index-aligned with the input.
pub open spec fn spec_comoving_transverse_distances(
    zs: Seq<int>,
    om: int,
    ok: int,
    ol: int,
    h0: int,
) -> Result<Seq<int>, CosmoError> {
    spec_collect(zs.map_values(|z: int| spec_comoving_trans_distance(z, om, ok, ol, h0)))
}

/// Comoving transverse distances for an array of redshifts, in parallel
/// and in input order, mirroring [`spec_comoving_transverse_distances`].
pub fn comoving_transverse_distances(zs: Vec<Fx>, params: CosmologyParameters) -> (out: Result<
    Vec<Fx>,
    CosmoError,
>)
    ensures
        res_vec_v(out) == spec_comoving_transverse_distances(
            seq_v(zs@),
            params.omega_m@,
            params.omega_k@,
            params.omega_l@,
            params.h0@,
        ),
{
    let raw = par_map_trans(&zs, params);
    proof {
        assert(view_results(raw@) =~= seq_v(zs@).map_values(
            |z: int|
                spec_comoving_trans_distance(
                    z,
                    params.omega_m@,
                    params.omega_k@,
                    params.omega_l@,
                    params.h0@,
                ),
        ));
    }
    collect_ok(raw)
}


/// Every batch of transverse distances preserves input order: a successful batch holds,
/// at each position, exactly the transverse distance of the input at that
/// position; and if every element succeeds, the batch succeeds.
#[verifier::rlimit(100)]
pub proof fn lemma_comoving_transverse_distances_elementwise(zs: Seq<int>, om: int, ok: int, ol: int, h0: int)
    ensures
        spec_comoving_transverse_distances(zs, om, ok, ol, h0) matches Ok(ds) ==> ds.len() == zs.len() && (forall|i: int|
            0 <= i < zs.len() ==> spec_comoving_trans_distance(zs[i], om, ok, ol, h0) == Ok::<int, CosmoError>(
                ds[i],
            )),
        (forall|i: int| 0 <= i < zs.len() ==> spec_comoving_trans_distance(zs[i], om, ok, ol, h0) is Ok)
            ==> spec_comoving_transverse_distances(zs, om, ok, ol, h0) is Ok,
{
    lemma_mapped_collect_elementwise(zs, |z: int| spec_comoving_trans_distance(z, om, ok, ol, h0));
}

/// The distance moduli of a sequence of redshifts, index-aligned with the
/// input.
pub open spec fn spec_dist_mods(zs: Seq<int>, om: int, ok: int, ol: int, h0: int) -> Result<
    Seq<int>,
    CosmoError,
> {
    spec_collect(zs.map_values(|z: int| spec_dist_mod(z, om, ok, ol, h0)))
}

/// Distance moduli for an array of redshifts, in parallel and in input
/// order, mirroring [`spec_dist_mods`].
pub fn dist_mods(zs: Vec<Fx>, params: CosmologyParameters) -> (out: Result<Vec<Fx>, CosmoError>)
    ensures
        res_vec_v(out) == spec_dist_mods(
            seq_v(zs@),
            params.omega_m@,
            params.omega_k@,
            params.omega_l@,
            params.h0@,
        ),
{
    let raw = par_map_dist_mod(&zs, params);
    proof {
        assert(view_results(raw@) =~= seq_v(zs@).map_values(
            |z: int|
                spec_dist_mod(
                    z,
                    params.omega_m@,
                    params.omega_k@,
                    params.omega_l@,
                    params.h0@,
                ),
        ));
    }
    collect_ok(raw)
}


/// Every batch of distance moduli preserves input order: a successful batch holds,
/// at each position, exactly the distance modulus of the input at that
/// position; and if every element succeeds, the batch succeeds.
#[verifier::rlimit(100)]
pub proof fn lemma_dist_mods_elementwise(zs: Seq<int>, om: int, ok: int, ol: int, h0: int)
    ensures
        spec_dist_mods(zs, om, ok, ol, h0) matches Ok(ds) ==> ds.len() == zs.len() && (forall|i: int|
            0 <= i < zs.len() ==> spec_dist_mod(zs[i], om, ok, ol, h0) == Ok::<int, CosmoError>(
                ds[i],
            )),
        (forall|i: int| 0 <= i < zs.len() ==> spec_dist_mod(zs[i], om, ok, ol, h0) is Ok)
            ==> spec_dist_mods(zs, om, ok, ol, h0) is Ok,
{
    lemma_mapped_collect_elementwise(zs, |z: int| spec_dist_mod(z, om, ok, ol, h0));
}

/// The comoving volumes of a sequence of redshifts, index-aligned with the
/// input.
pub open spec fn spec_comoving_volumes(zs: Seq<int>, om: int, ok: int, ol: int, h0: int) -> Result<
    Seq<int>,
    CosmoError,
> {
    spec_collect(zs.map_values(|z: int| spec_comoving_volume(z, om, ok, ol, h0)))
}

/// Comoving volumes for an array of redshifts, in parallel and in input
/// order, mirroring [`spec_comoving_volumes`].
pub fn comoving_volumes(zs: Vec<Fx>, params: CosmologyParameters) -> (out: Result<
    Vec<Fx>,
    CosmoError,
>)
    ensures
        res_vec_v(out) == spec_comoving_volumes(
            seq_v(zs@),
            params.omega_m@,
            params.omega_k@,
            params.omega_l@,
            params.h0@,
        ),
{
    let raw = par_map_volume(&zs, params);
    proof {
        assert(view_results(raw@) =~= seq_v(zs@).map_values(
            |z: int|
                spec_comoving_volume(
                    z,
                    params.omega_m@,
                    params.omega_k@,
                    params.omega_l@,
                    params.h0@,
                ),
        ));
    }
    collect_ok(raw)
}


/// Every batch of comoving volumes preserves input order: a successful batch holds,
/// at each position, exactly the comoving volume of the input at that
/// position; and if every element succeeds, the batch succeeds.
#[verifier::rlimit(100)]
pub proof fn lemma_comoving_volumes_elementwise(zs: Seq<int>, om: int, ok: int, ol: int, h0: int)
    ensures
        spec_comoving_volumes(zs, om, ok, ol, h0) matches Ok(ds) ==> ds.len() == zs.len() && (forall|i: int|
            0 <= i < zs.len() ==> spec_comoving_volume(zs[i], om, ok, ol, h0) == Ok::<int, CosmoError>(
                ds[i],
            )),
        (forall|i: int| 0 <= i < zs.len() ==> spec_comoving_volume(zs[i], om, ok, ol, h0) is Ok)
            ==> spec_comoving_volumes(zs, om, ok, ol, h0) is Ok,
{
    lemma_mapped_collect_elementwise(zs, |z: int| spec_comoving_volume(z, om, ok, ol, h0));
}

/// The universe ages of a sequence of redshifts, index-aligned with the
/// input.
pub open spec fn spec_universe_ages(zs: Seq<int>, om: int, ok: int, ol: int, h0: int) -> Result<
    Seq<int>,
    CosmoError,
> {
    spec_collect(zs.map_values(|z: int| spec_universe_age(z, om, ok, ol, h0)))
}

/// Universe ages in Gyr at multiple redshifts, in parallel and in input
/// order, mirroring [`spec_universe_ages`].
pub fn universe_ages(zs: Vec<Fx>, params: CosmologyParameters) -> (out: Result<Vec<Fx>, CosmoError>)
    ensures
        res_vec_v(out) == spec_universe_ages(
            seq_v(zs@),
            params.omega_m@,
            params.omega_k@,
            params.omega_l@,
            params.h0@,
        ),
{
    let raw = par_map_age(&zs, params);
    proof {
        assert(view_results(raw@) =~= seq_v(zs@).map_values(
            |z: int|
                spec_universe_age(
                    z,
                    params.omega_m@,
                    params.omega_k@,
                    params.omega_l@,
                    params.h0@,
                ),
        ));
    }
    collect_ok(raw)
}


/// Every batch of universe ages preserves input order: a successful batch holds,
/// at each position, exactly the universe age of the input at that
/// position; and if every element succeeds, the batch succeeds.
#[verifier::rlimit(100)]
pub proof fn lemma_universe_ages_elementwise(zs: Seq<int>, om: int, ok: int, ol: int, h0: int)
    ensures
        spec_universe_ages(zs, om, ok, ol, h0) matches Ok(ds) ==> ds.len() == zs.len() && (forall|i: int|
            0 <= i < zs.len() ==> spec_universe_age(zs[i], om, ok, ol, h0) == Ok::<int, CosmoError>(
                ds[i],
            )),
        (forall|i: int| 0 <= i < zs.len() ==> spec_universe_age(zs[i], om, ok, ol, h0) is Ok)
            ==> spec_universe_ages(zs, om, ok, ol, h0) is Ok,
{
    lemma_mapped_collect_elementwise(zs, |z: int| spec_universe_age(z, om, ok, ol, h0));
}

/// The redshifts matching a sequence of target ages, index-aligned with
/// the input.
pub open spec fn spec_inverse_ages(ages: Seq<int>, om: int, ok: int, ol: int, h0: int) -> Result<
    Seq<int>,
    CosmoError,
> {
    spec_collect(ages.map_values(|a: int| spec_inverse_age(a, om, ok, ol, h0)))
}

/// Redshifts at the given ages in Gyr, in parallel and in input order,
/// mirroring [`spec_inverse_ages`].
pub fn inverse_ages(ages: Vec<Fx>, params: CosmologyParameters) -> (out: Result<
    Vec<Fx>,
    CosmoError,
>)
    ensures
        res_vec_v(out) == spec_inverse_ages(
            seq_v(ages@),
            params.omega_m@,
            params.omega_k@,
            params.omega_l@,
            params.h0@,
        ),
{
    let raw = par_map_inverse_age(&ages, params);
    proof {
        assert(view_results(raw@) =~= seq_v(ages@).map_values(
            |a: int|
                spec_inverse_age(
                    a,
                    params.omega_m@,
                    params.omega_k@,
                    params.omega_l@,
                    params.h0@,
                ),
        ));
    }
    collect_ok(raw)
}


/// Every batch of inverse ages preserves input order: a successful batch holds,
/// at each position, exactly the recovered redshift of the input at that
/// position; and if every element succeeds, the batch succeeds.
#[verifier::rlimit(100)]
pub proof fn lemma_inverse_ages_elementwise(zs: Seq<int>, om: int, ok: int, ol: int, h0: int)
    ensures
        spec_inverse_ages(zs, om, ok, ol, h0) matches Ok(ds) ==> ds.len() == zs.len() && (forall|i: int|
            0 <= i < zs.len() ==> spec_inverse_age(zs[i], om, ok, ol, h0) == Ok::<int, CosmoError>(
                ds[i],
            )),
        (forall|i: int| 0 <= i < zs.len() ==> spec_inverse_age(zs[i], om, ok, ol, h0) is Ok)
            ==> spec_inverse_ages(zs, om, ok, ol, h0) is Ok,
{
    lemma_mapped_collect_elementwise(zs, |z: int| spec_inverse_age(z, om, ok, ol, h0));
}

} // verus!
