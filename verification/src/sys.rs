//! Plain values exchanged with the Chromaprint C interface.

use vstd::prelude::*;

verus! {

/// Algorithm number understood by the C interface.
#[derive(Clone, Copy, PartialEq, Eq, Debug, Structural)]
pub struct ChromaprintAlgorithm(pub i32);

impl ChromaprintAlgorithm {
    /// Algorithm number 0.
    pub fn test1() -> (res: Self)
        ensures
            res.0 == 0,
    {
        ChromaprintAlgorithm(0)
    }

    /// Algorithm number 1, the default one.
    pub fn test2() -> (res: Self)
        ensures
            res.0 == 1,
    {
        ChromaprintAlgorithm(1)
    }

    /// Algorithm number 2.
    pub fn test3() -> (res: Self)
        ensures
            res.0 == 2,
    {
        ChromaprintAlgorithm(2)
    }

    /// Algorithm number 3.
    pub fn test4() -> (res: Self)
        ensures
            res.0 == 3,
    {
        ChromaprintAlgorithm(3)
    }

    /// Algorithm number 4.
    pub fn test5() -> (res: Self)
        ensures
            res.0 == 4,
    {
        ChromaprintAlgorithm(4)
    }
}

impl Default for ChromaprintAlgorithm {
    fn default() -> (res: Self)
        ensures
            res.0 == 1,
    {
        Self::test2()
    }
}

/// Opaque handle of a fingerprinting context of the C interface. It has no
/// public constructor: a value only ever stands behind a pointer that the C
/// interface hands out.
pub struct ChromaprintContext {
    opaque: (),
}

} // verus!
