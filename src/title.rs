//! The default dialog title: unset at first, then fixed by the first read or set.
use vstd::prelude::*;
use vstd::string::*;

verus! {

/// The title used when no title was set before the first read.
pub const UNEXPECTED_ERROR_TITLE: &'static str = "Unexpected Error";

/// The default title: `None` until it is resolved, then the title for good.
pub struct DefaultTitle {
    resolved: Option<String>,
}

impl View for DefaultTitle {
    type V = Option<Seq<char>>;

    closed spec fn view(&self) -> Option<Seq<char>> {
        match self.resolved {
            Some(t) => Some(t@),
            None => None,
        }
    }
}

/// The state after an attempt to set the title to `title`.
pub open spec fn after_set(state: Option<Seq<char>>, title: Seq<char>) -> Option<Seq<char>> {
    match state {
        Some(t) => Some(t),
        None => Some(title),
    }
}

/// The state after a read of the title.
pub open spec fn after_read(state: Option<Seq<char>>) -> Option<Seq<char>> {
    match state {
        Some(t) => Some(t),
        None => Some(UNEXPECTED_ERROR_TITLE@),
    }
}

/// The state after a run of operations: `Some(t)` sets the title to `t`, `None` reads it.
pub open spec fn after_ops(state: Option<Seq<char>>, ops: Seq<Option<Seq<char>>>) -> Option<
    Seq<char>,
>
    decreases ops.len(),
{
    if ops.len() == 0 {
        state
    } else {
        let next = match ops[0] {
            Some(t) => after_set(state, t),
            None => after_read(state),
        };
        after_ops(next, ops.drop_first())
    }
}

impl DefaultTitle {
    /// A default title that nothing has resolved yet.
    pub fn new() -> (r: DefaultTitle)
        ensures
            r@ is None,
    {
        DefaultTitle { resolved: None }
    }

    /// Sets the title, unless it is already resolved; then nothing changes.
    /// Returns whether the title was taken.
    pub fn set(&mut self, title: &str) -> (taken: bool)
        ensures
            taken == (old(self)@ is None),
            final(self)@ == after_set(old(self)@, title@),
    {
        if self.resolved.is_none() {
            self.resolved = Some(String::from_str(title));
            true
        } else {
            false
        }
    }
}

/// Reads the default title, resolving it to `UNEXPECTED_ERROR_TITLE` if nothing set it.
pub fn get_title(config: &mut DefaultTitle) -> (r: String)
    ensures
        final(config)@ == after_read(old(config)@),
        final(config)@ == Some(r@),
{
    match &config.resolved {
        Some(t) => t.clone(),
        None => {
            let t = String::from_str(UNEXPECTED_ERROR_TITLE);
            config.resolved = Some(t.clone());
            t
        },
    }
}

/// Once the default title is resolved, no run of sets and reads changes it.
pub proof fn lemma_resolved_title_is_fixed(title: Seq<char>, ops: Seq<Option<Seq<char>>>)
    ensures
        after_ops(Some(title), ops) == Some(title),
    decreases ops.len(),
{
    if ops.len() > 0 {
        lemma_resolved_title_is_fixed(title, ops.drop_first());
    }
}

/// The first operation resolves the title, and what it resolves to stays.
pub proof fn lemma_first_operation_wins(
    state: Option<Seq<char>>,
    first: Option<Seq<char>>,
    ops: Seq<Option<Seq<char>>>,
)
    ensures
        after_ops(state, seq![first] + ops) == after_ops(state, seq![first]),
        after_ops(state, seq![first]) is Some,
{
    let next = match first {
        Some(t) => after_set(state, t),
        None => after_read(state),
    };
    let empty = Seq::<Option<Seq<char>>>::empty();
    assert((seq![first] + ops).drop_first() =~= ops);
    assert(seq![first].drop_first() =~= empty);
    assert(after_ops(next, empty) == next);
    assert(after_ops(state, seq![first]) == next);
    assert(after_ops(state, seq![first] + ops) == after_ops(next, ops));
    lemma_resolved_title_is_fixed(next->0, ops);
}

} // verus!
