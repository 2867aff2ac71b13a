//! The fingerprinting algorithms and their numbers in the C interface.

use vstd::prelude::*;

use crate::error::ChromaprintError;
use crate::sys::ChromaprintAlgorithm;

verus! {

/// Algorithm used to compute a fingerprint.
#[derive(Clone, Copy, PartialEq, Eq, Debug, Structural)]
pub enum Algorithm {
    Test1,
    Test2,
    Test3,
    Test4,
    Test5,
}

impl Default for Algorithm {
    fn default() -> (res: Self)
        ensures
            res == Algorithm::Test2,
    {
        Algorithm::Test2
    }
}

/// The algorithm that the C interface numbers `n`, if any.
pub open spec fn algorithm_numbered(n: i32) -> Option<Algorithm> {
    if n == 0 {
        Some(Algorithm::Test1)
    } else if n == 1 {
        Some(Algorithm::Test2)
    } else if n == 2 {
        Some(Algorithm::Test3)
    } else if n == 3 {
        Some(Algorithm::Test4)
    } else if n == 4 {
        Some(Algorithm::Test5)
    } else {
        None
    }
}

impl Algorithm {
    /// Number of the algorithm in the C interface.
    pub open spec fn number(self) -> i32 {
        match self {
            Algorithm::Test1 => 0,
            Algorithm::Test2 => 1,
            Algorithm::Test3 => 2,
            Algorithm::Test4 => 3,
            Algorithm::Test5 => 4,
        }
    }

    /// The value that names this algorithm in the C interface.
    pub fn into_sys(self) -> (res: ChromaprintAlgorithm)
        ensures
            res.0 == self.number(),
    {
        match self {
            Algorithm::Test1 => ChromaprintAlgorithm::test1(),
            Algorithm::Test2 => ChromaprintAlgorithm::test2(),
            Algorithm::Test3 => ChromaprintAlgorithm::test3(),
            Algorithm::Test4 => ChromaprintAlgorithm::test4(),
            Algorithm::Test5 => ChromaprintAlgorithm::test5(),
        }
    }

    /// The algorithm that a value of the C interface names; a number outside
    /// the known ones is refused.
    pub fn from_sys(algo: ChromaprintAlgorithm) -> (res: Result<Self, ChromaprintError>)
        ensures
            res is Ok <==> 0 <= algo.0 <= 4,
            res matches Ok(a) ==> a.number() == algo.0 && algorithm_numbered(algo.0) == Some(a),
            res matches Err(e) ==> e == ChromaprintError::UnkownAlgorithm,
    {
        if algo == ChromaprintAlgorithm::test1() {
            return Ok(Algorithm::Test1);
        }
        if algo == ChromaprintAlgorithm::test2() {
            return Ok(Algorithm::Test2);
        }
        if algo == ChromaprintAlgorithm::test3() {
            return Ok(Algorithm::Test3);
        }
        if algo == ChromaprintAlgorithm::test4() {
            return Ok(Algorithm::Test4);
        }
        if algo == ChromaprintAlgorithm::test5() {
            return Ok(Algorithm::Test5);
        }
        Err(ChromaprintError::UnkownAlgorithm)
    }
}

/// Naming an algorithm in the C interface and reading the name back gives
/// the same algorithm, and every name that reads back as an algorithm is that
/// algorithm's own name.
pub proof fn lemma_algorithm_number_round_trip(a: Algorithm, n: i32)
    ensures
        algorithm_numbered(a.number()) == Some(a),
        algorithm_numbered(n) == Some(a) ==> a.number() == n,
{
}

/// Two algorithms with the same number in the C interface are the same.
pub proof fn lemma_algorithm_number_injective(a: Algorithm, b: Algorithm)
    ensures
        a.number() == b.number() ==> a == b,
{
}

/// The default algorithm (`Test2`) is the one that the C interface calls its
/// default, number 1, in both directions.
pub proof fn lemma_default_algorithm_matches_sys()
    ensures
        Algorithm::Test2.number() == 1,
        algorithm_numbered(1) == Some(Algorithm::Test2),
{
}

} // verus!
