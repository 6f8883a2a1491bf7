use vstd::prelude::*;

verus! {

/// Acquires a resource, hands a reference to it to `consume`, then hands the
/// resource itself to `release`, and returns what `consume` returned.
///
/// * `acquire` may fail; its error is returned at once, and neither `consume`
///   nor `release` runs.
/// * `release` cannot fail, and runs once whenever `acquire` succeeded, after
///   `consume`, whether `consume` succeeded or not.
/// * The result is `consume`'s result; `release` has no say in it.
pub fn bracket<R, T, E, F, G, H>(acquire: F, release: G, consume: H) -> (r: Result<T, E>) where
    F: FnOnce() -> Result<R, E>,
    G: FnOnce(R),
    H: FnOnce(&R) -> Result<T, E>,

    requires
        acquire.requires(()),
        forall|res: R| #[trigger] acquire.ensures((), Ok::<R, E>(res)) ==> consume.requires((&res,)),
        forall|res: R, out: Result<T, E>|
            acquire.ensures((), Ok::<R, E>(res)) && #[trigger] consume.ensures((&res,), out)
                ==> release.requires((res,)),
    ensures
        exists|acquired: Result<R, E>|
            #[trigger] acquire.ensures((), acquired) && match acquired {
                Err(e) => r == Err::<T, E>(e),
                Ok(res) => consume.ensures((&res,), r) && release.ensures((res,), ()),
            },
{
    let acquired = acquire();
    match acquired {
        Err(e) => Err(e),
        Ok(resource) => {
            let result = consume(&resource);
            release(resource);
            result
        },
    }
}

} // verus!
