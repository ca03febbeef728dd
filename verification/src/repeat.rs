use crate::error::DecodeError;
use vstd::prelude::*;

verus! {

/// `n` records read one after another by the element parser `f`, which maps
/// a cursor position to the parsed value and the next position, or to the
/// error met there.  Every count-prefixed list of the file is an instance of
/// this shape.
pub open spec fn spec_count<T>(
    f: spec_fn(int) -> Result<(T, int), DecodeError>,
    i: int,
    n: nat,
) -> Result<(Seq<T>, int), DecodeError>
    decreases n,
{
    if n == 0 {
        Ok((Seq::empty(), i))
    } else {
        match f(i) {
            Ok((v, j)) => match spec_count(f, j, (n - 1) as nat) {
                Ok((vs, end)) => Ok((seq![v] + vs, end)),
                Err(e) => Err(e),
            },
            Err(e) => Err(e),
        }
    }
}

/// Reading `n` records splits at any `k`: the first `k` and then the rest
/// from where they ended; an error in either part is the error of the whole.
pub proof fn lemma_count_split<T>(
    f: spec_fn(int) -> Result<(T, int), DecodeError>,
    i: int,
    k: nat,
    n: nat,
)
    requires
        k <= n,
    ensures
        (match spec_count(f, i, k) {
            Ok((vs, j)) => match spec_count(f, j, (n - k) as nat) {
                Ok((ws, end)) => spec_count(f, i, n) == Ok::<(Seq<T>, int), DecodeError>(
                    (vs + ws, end),
                ),
                Err(e) => spec_count(f, i, n) == Err::<(Seq<T>, int), DecodeError>(e),
            },
            Err(e) => spec_count(f, i, n) == Err::<(Seq<T>, int), DecodeError>(e),
        }),
    decreases k,
{
    if k == 0 {
        match spec_count(f, i, (n - k) as nat) {
            Ok((ws, end)) => {
                assert(Seq::<T>::empty() + ws =~= ws);
            },
            Err(e) => {},
        }
    } else {
        match f(i) {
            Ok((v, j)) => {
                lemma_count_split(f, j, (k - 1) as nat, (n - 1) as nat);
                match spec_count(f, j, (k - 1) as nat) {
                    Ok((vs1, j1)) => {
                        match spec_count(f, j1, (n - k) as nat) {
                            Ok((ws, end)) => {
                                assert(seq![v] + (vs1 + ws) =~= (seq![v] + vs1) + ws);
                            },
                            Err(e) => {},
                        }
                    },
                    Err(e) => {},
                }
            },
            Err(e) => {},
        }
    }
}

/// Extends a parsed prefix by one more successfully read record.
pub proof fn lemma_count_step<T>(
    f: spec_fn(int) -> Result<(T, int), DecodeError>,
    i: int,
    k: nat,
    vs: Seq<T>,
    j: int,
    v: T,
    j2: int,
)
    requires
        spec_count(f, i, k) == Ok::<(Seq<T>, int), DecodeError>((vs, j)),
        f(j) == Ok::<(T, int), DecodeError>((v, j2)),
    ensures
        spec_count(f, i, k + 1) == Ok::<(Seq<T>, int), DecodeError>((vs.push(v), j2)),
{
    assert(spec_count(f, j2, 0) == Ok::<(Seq<T>, int), DecodeError>((Seq::empty(), j2)));
    assert(seq![v] + Seq::<T>::empty() =~= seq![v]);
    assert(spec_count(f, j, 1) == Ok::<(Seq<T>, int), DecodeError>((seq![v], j2)));
    lemma_count_split(f, i, k, k + 1);
    assert(vs + seq![v] =~= vs.push(v));
}

/// A record that fails after a parsed prefix fails every longer list.
pub proof fn lemma_count_step_err<T>(
    f: spec_fn(int) -> Result<(T, int), DecodeError>,
    i: int,
    k: nat,
    n: nat,
    vs: Seq<T>,
    j: int,
    e: DecodeError,
)
    requires
        k < n,
        spec_count(f, i, k) == Ok::<(Seq<T>, int), DecodeError>((vs, j)),
        f(j) == Err::<(T, int), DecodeError>(e),
    ensures
        spec_count(f, i, n) == Err::<(Seq<T>, int), DecodeError>(e),
{
    lemma_count_split(f, i, k, n);
    assert(spec_count(f, j, (n - k) as nat) == Err::<(Seq<T>, int), DecodeError>(e));
}

} // verus!
