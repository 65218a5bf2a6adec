//! The kernels by which a point's value is weighted.
//!
//! A kernel is either bounded, and then a point farther away than the radius
//! takes no part in a cell, or unbounded, and then every point that the index
//! reports takes part. The weights themselves are computed by the caller;
//! this module selects the kernel and decides which points are admitted.

use crate::ordinal::le_ordinals;
use crate::ordinal::not_greater;
use crate::text::same_text;
use vstd::prelude::*;

verus! {

/// The weighting functions that can be chosen.
#[derive(Clone, Copy, Debug, PartialEq, Eq, Structural)]
pub enum Kernel {
    Uniform,
    Triangular,
    Parabolic,
    Quadric,
    Triweight,
    Tricube,
    Gaussian,
    Cosine,
    Logistic,
    Sigmoid,
}

impl Kernel {
    /// The kernel is zero beyond the radius.
    pub open spec fn bounded(self) -> bool {
        !(self is Gaussian || self is Logistic || self is Sigmoid)
    }

    /// The word by which the kernel is chosen.
    pub open spec fn name_spec(self) -> Seq<char> {
        match self {
            Kernel::Uniform => "uniform"@,
            Kernel::Triangular => "triangular"@,
            Kernel::Parabolic => "parabolic"@,
            Kernel::Quadric => "quadric"@,
            Kernel::Triweight => "triweight"@,
            Kernel::Tricube => "tricube"@,
            Kernel::Gaussian => "gaussian"@,
            Kernel::Cosine => "cosine"@,
            Kernel::Logistic => "logistic"@,
            Kernel::Sigmoid => "sigmoid"@,
        }
    }

    /// The kernel that a word chooses, if it chooses one.
    pub open spec fn named(name: Seq<char>) -> Option<Kernel> {
        if name == "uniform"@ {
            Some(Kernel::Uniform)
        } else if name == "triangular"@ {
            Some(Kernel::Triangular)
        } else if name == "parabolic"@ {
            Some(Kernel::Parabolic)
        } else if name == "quadric"@ {
            Some(Kernel::Quadric)
        } else if name == "triweight"@ {
            Some(Kernel::Triweight)
        } else if name == "tricube"@ {
            Some(Kernel::Tricube)
        } else if name == "gaussian"@ {
            Some(Kernel::Gaussian)
        } else if name == "cosine"@ {
            Some(Kernel::Cosine)
        } else if name == "logistic"@ {
            Some(Kernel::Logistic)
        } else if name == "sigmoid"@ {
            Some(Kernel::Sigmoid)
        } else {
            None
        }
    }

    /// A point at the given distance takes part in a cell: always for an
    /// unbounded kernel, and for a bounded one where the distance is not
    /// greater than the radius. Both are ordinals, `None` for a value that is
    /// not a number.
    pub open spec fn admits_spec(self, distance: Option<i64>, radius: Option<i64>) -> bool {
        !self.bounded() || le_ordinals(distance, radius)
    }

    /// Selects a kernel by its name.
    pub fn from_name(name: &str) -> (r: Option<Kernel>)
        ensures
            r == Kernel::named(name@),
    {
        if same_text(name, "uniform") {
            Some(Kernel::Uniform)
        } else if same_text(name, "triangular") {
            Some(Kernel::Triangular)
        } else if same_text(name, "parabolic") {
            Some(Kernel::Parabolic)
        } else if same_text(name, "quadric") {
            Some(Kernel::Quadric)
        } else if same_text(name, "triweight") {
            Some(Kernel::Triweight)
        } else if same_text(name, "tricube") {
            Some(Kernel::Tricube)
        } else if same_text(name, "gaussian") {
            Some(Kernel::Gaussian)
        } else if same_text(name, "cosine") {
            Some(Kernel::Cosine)
        } else if same_text(name, "logistic") {
            Some(Kernel::Logistic)
        } else if same_text(name, "sigmoid") {
            Some(Kernel::Sigmoid)
        } else {
            None
        }
    }

    /// The name that selects this kernel.
    pub fn name(self) -> (r: &'static str)
        ensures
            r@ == self.name_spec(),
    {
        match self {
            Kernel::Uniform => "uniform",
            Kernel::Triangular => "triangular",
            Kernel::Parabolic => "parabolic",
            Kernel::Quadric => "quadric",
            Kernel::Triweight => "triweight",
            Kernel::Tricube => "tricube",
            Kernel::Gaussian => "gaussian",
            Kernel::Cosine => "cosine",
            Kernel::Logistic => "logistic",
            Kernel::Sigmoid => "sigmoid",
        }
    }

    /// The kernel is zero beyond the radius.
    pub fn is_bounded(self) -> (r: bool)
        ensures
            r == self.bounded(),
    {
        match self {
            Kernel::Gaussian | Kernel::Logistic | Kernel::Sigmoid => false,
            _ => true,
        }
    }

    /// A point beyond the radius can take part in a cell.
    pub fn outside_radius_possible(self) -> (r: bool)
        ensures
            r == !self.bounded(),
    {
        !self.is_bounded()
    }

    /// Decides whether a point at `distance` takes part in a cell.
    pub fn admits(self, distance: Option<i64>, radius: Option<i64>) -> (r: bool)
        ensures
            r == self.admits_spec(distance, radius),
    {
        self.outside_radius_possible() || not_greater(distance, radius)
    }
}

impl Default for Kernel {
    /// The kernel that is used where none is chosen.
    fn default() -> (r: Kernel)
        ensures
            r == Kernel::Quadric,
    {
        Kernel::Quadric
    }
}

/// Each kernel is selected by its own name.
pub proof fn lemma_name_selects_kernel(kernel: Kernel)
    ensures
        Kernel::named(kernel.name_spec()) == Some(kernel),
{
    reveal_strlit("uniform");
    reveal_strlit("triangular");
    reveal_strlit("parabolic");
    reveal_strlit("quadric");
    reveal_strlit("triweight");
    reveal_strlit("tricube");
    reveal_strlit("gaussian");
    reveal_strlit("cosine");
    reveal_strlit("logistic");
    reveal_strlit("sigmoid");
    // any two of the names differ in their length or in their first letter
    assert("uniform"@.len() == 7 && "uniform"@[0] == 'u');
    assert("triangular"@.len() == 10);
    assert("parabolic"@.len() == 9);
    assert("quadric"@.len() == 7 && "quadric"@[0] == 'q');
    assert("triweight"@.len() == 9 && "triweight"@[0] == 't');
    assert("tricube"@.len() == 7 && "tricube"@[0] == 't');
    assert("gaussian"@.len() == 8 && "gaussian"@[0] == 'g');
    assert("cosine"@.len() == 6 && "cosine"@[0] == 'c');
    assert("logistic"@.len() == 8 && "logistic"@[0] == 'l');
    assert("sigmoid"@.len() == 7 && "sigmoid"@[0] == 's');
    assert("parabolic"@[0] == 'p');
}

/// A word selects a kernel only if it is that kernel's name.
pub proof fn lemma_selected_by_name_only(name: Seq<char>, kernel: Kernel)
    requires
        Kernel::named(name) == Some(kernel),
    ensures
        name == kernel.name_spec(),
{
}

/// With a bounded kernel a point takes part exactly when its distance is not
/// greater than the radius: a point at the radius is in, a point beyond it is
/// out. With an unbounded kernel every point takes part.
pub proof fn lemma_radius_cutoff(kernel: Kernel, distance: i64, radius: i64)
    ensures
        kernel.bounded() ==> (kernel.admits_spec(Some(distance), Some(radius)) <==> distance
            <= radius),
        kernel.bounded() && distance == radius ==> kernel.admits_spec(
            Some(distance),
            Some(radius),
        ),
        kernel.bounded() && distance > radius ==> !kernel.admits_spec(
            Some(distance),
            Some(radius),
        ),
        !kernel.bounded() ==> kernel.admits_spec(Some(distance), Some(radius)),
{
}

} // verus!
