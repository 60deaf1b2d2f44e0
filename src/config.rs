use vstd::prelude::*;

verus! {

/// Dimension of the two-variable problems solved by momentum descent.
pub const NESTEROV_DIM: usize = 2;

/// Dimension of the valley-chain problem solved by stochastic descent.
pub const SGD_DIM: usize = 1000;

/// A fatal configuration error, reported before any iteration runs.
#[derive(Debug, Clone, Copy, PartialEq, Eq, Structural)]
pub enum ConfigError {
    /// The problem selector names no built-in problem.
    UnknownProblem { selector: usize },
    /// The initial point does not have the problem's dimension.
    DimensionMismatch { expected: usize, found: usize },
}

/// The built-in problems that momentum descent can be run on.
#[derive(Debug, Clone, Copy, PartialEq, Eq, Structural)]
pub enum NesterovProblemKind {
    /// Quadratic bowl with one soft linear inequality.
    Bowl,
    /// Non-convex valley with one soft and one hard linear constraint.
    Valley,
}

/// The problem that a selector names, if any: 1 is the bowl, 2 the valley.
pub open spec fn selected_problem(selector: usize) -> Option<NesterovProblemKind> {
    if selector == 1 {
        Some(NesterovProblemKind::Bowl)
    } else if selector == 2 {
        Some(NesterovProblemKind::Valley)
    } else {
        None
    }
}

/// Maps a problem selector to its problem; any other selector is an error.
pub fn select_nesterov_problem(selector: usize) -> (r: Result<NesterovProblemKind, ConfigError>)
    ensures
        selected_problem(selector) is Some ==> r == Ok::<NesterovProblemKind, ConfigError>(
            selected_problem(selector)->Some_0,
        ),
        selected_problem(selector) is None ==> r == Err::<NesterovProblemKind, ConfigError>(
            ConfigError::UnknownProblem { selector },
        ),
{
    if selector == 1 {
        Ok(NesterovProblemKind::Bowl)
    } else if selector == 2 {
        Ok(NesterovProblemKind::Valley)
    } else {
        Err(ConfigError::UnknownProblem { selector })
    }
}

/// Accepts a point of `found` coordinates for a problem of dimension `expected`.
pub fn check_point_len(found: usize, expected: usize) -> (r: Result<(), ConfigError>)
    ensures
        found == expected ==> r is Ok,
        found != expected ==> r == Err::<(), ConfigError>(
            ConfigError::DimensionMismatch { expected, found },
        ),
{
    if found == expected {
        Ok(())
    } else {
        Err(ConfigError::DimensionMismatch { expected, found })
    }
}

/// Validates a momentum-descent run before it starts: the length of the
/// initial point first, then the selector.
pub fn configure_nesterov(selector: usize, point_len: usize) -> (r: Result<NesterovProblemKind, ConfigError>)
    ensures
        point_len != NESTEROV_DIM ==> r == Err::<NesterovProblemKind, ConfigError>(
            ConfigError::DimensionMismatch { expected: NESTEROV_DIM, found: point_len },
        ),
        point_len == NESTEROV_DIM && selected_problem(selector) is None ==> r == Err::<
            NesterovProblemKind,
            ConfigError,
        >(ConfigError::UnknownProblem { selector }),
        point_len == NESTEROV_DIM && selected_problem(selector) is Some ==> r == Ok::<
            NesterovProblemKind,
            ConfigError,
        >(selected_problem(selector)->Some_0),
{
    match check_point_len(point_len, NESTEROV_DIM) {
        Ok(()) => select_nesterov_problem(selector),
        Err(e) => Err(e),
    }
}

/// Validates a stochastic-descent run before it starts.
pub fn configure_sgd(point_len: usize) -> (r: Result<(), ConfigError>)
    ensures
        point_len == SGD_DIM ==> r is Ok,
        point_len != SGD_DIM ==> r == Err::<(), ConfigError>(
            ConfigError::DimensionMismatch { expected: SGD_DIM, found: point_len },
        ),
{
    check_point_len(point_len, SGD_DIM)
}

} // verus!
