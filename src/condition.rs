//! Gating expressions over fields of the run's context, kept as data: the
//! automation platform evaluates them later.

use vstd::prelude::*;

verus! {

/// A field of the run's context that a gate can test.
#[derive(Debug, Clone, Copy, PartialEq, Eq, Structural)]
pub enum ContextField {
    /// The full name of the ref that triggered the run (`github.ref`).
    Ref,
    /// The name of the event that triggered the run (`github.event_name`).
    EventName,
}

/// A boolean expression tree over context fields.
#[derive(Debug, PartialEq, Eq)]
pub enum Condition {
    Equals(ContextField, String),
    And(Box<Condition>, Box<Condition>),
    Or(Box<Condition>, Box<Condition>),
    Not(Box<Condition>),
}

/// The mathematical value of a [`Condition`].
pub enum Expr {
    Equals(ContextField, Seq<char>),
    And(Box<Expr>, Box<Expr>),
    Or(Box<Expr>, Box<Expr>),
    Not(Box<Expr>),
}

pub open spec fn expr_of(c: &Condition) -> Expr
    decreases c,
{
    match c {
        Condition::Equals(f, v) => Expr::Equals(*f, v@),
        Condition::And(a, b) => Expr::And(Box::new(expr_of(a)), Box::new(expr_of(b))),
        Condition::Or(a, b) => Expr::Or(Box::new(expr_of(a)), Box::new(expr_of(b))),
        Condition::Not(a) => Expr::Not(Box::new(expr_of(a))),
    }
}

impl View for Condition {
    type V = Expr;

    open spec fn view(&self) -> Expr {
        expr_of(self)
    }
}

/// The default branch's full ref name.
pub open spec fn main_ref() -> Seq<char> {
    "refs/heads/main"@
}

/// "The run was triggered from the default branch."
pub open spec fn is_main_expr() -> Expr {
    Expr::Equals(ContextField::Ref, main_ref())
}

/// "The run was triggered by a push."
pub open spec fn is_push_expr() -> Expr {
    Expr::Equals(ContextField::EventName, "push"@)
}

/// "The run was triggered by a pull request."
pub open spec fn is_pull_request_expr() -> Expr {
    Expr::Equals(ContextField::EventName, "pull_request"@)
}

/// What gates the release jobs: a push to the default branch.
pub open spec fn release_gate_expr() -> Expr {
    Expr::And(Box::new(is_main_expr()), Box::new(is_push_expr()))
}

impl Condition {
    /// `field == value`.
    pub fn equals(field: ContextField, value: &str) -> (r: Condition)
        ensures
            r@ == Expr::Equals(field, value@),
    {
        Condition::Equals(field, value.to_owned())
    }

    /// Both `self` and `other` hold.
    pub fn and(self, other: Condition) -> (r: Condition)
        ensures
            r@ == Expr::And(Box::new(self@), Box::new(other@)),
    {
        Condition::And(Box::new(self), Box::new(other))
    }

    /// At least one of `self` and `other` holds.
    pub fn or(self, other: Condition) -> (r: Condition)
        ensures
            r@ == Expr::Or(Box::new(self@), Box::new(other@)),
    {
        Condition::Or(Box::new(self), Box::new(other))
    }

    /// `self` does not hold.
    pub fn not(self) -> (r: Condition)
        ensures
            r@ == Expr::Not(Box::new(self@)),
    {
        Condition::Not(Box::new(self))
    }

    /// The run was triggered from the default branch.
    pub fn is_main() -> (r: Condition)
        ensures
            r@ == is_main_expr(),
    {
        Condition::equals(ContextField::Ref, "refs/heads/main")
    }

    /// The run was triggered by a push.
    pub fn is_push() -> (r: Condition)
        ensures
            r@ == is_push_expr(),
    {
        Condition::equals(ContextField::EventName, "push")
    }

    /// The run was triggered by a pull request.
    pub fn is_pull_request() -> (r: Condition)
        ensures
            r@ == is_pull_request_expr(),
    {
        Condition::equals(ContextField::EventName, "pull_request")
    }

    /// A push to the default branch, which gates the release jobs.
    pub fn release_gate() -> (r: Condition)
        ensures
            r@ == release_gate_expr(),
    {
        Condition::is_main().and(Condition::is_push())
    }
}

impl Clone for Condition {
    fn clone(&self) -> (r: Condition)
        ensures
            r == *self,
        decreases self,
    {
        match self {
            Condition::Equals(f, v) => Condition::Equals(*f, v.clone()),
            Condition::And(a, b) => Condition::And(
                Box::new((**a).clone()),
                Box::new((**b).clone()),
            ),
            Condition::Or(a, b) => Condition::Or(
                Box::new((**a).clone()),
                Box::new((**b).clone()),
            ),
            Condition::Not(a) => Condition::Not(Box::new((**a).clone())),
        }
    }
}

} // verus!
