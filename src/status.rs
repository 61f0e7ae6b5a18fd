//! Status text handed back to the managed caller: informational tokens, one per line.
use vstd::prelude::*;
use crate::failure::failure_text;
use crate::lifecycle::WorkerState;

verus! {

/// The tokens joined with a newline between each two of them.
pub open spec fn joined(tokens: Seq<Seq<char>>) -> Seq<char>
    decreases tokens.len(),
{
    if tokens.len() == 0 {
        Seq::empty()
    } else if tokens.len() == 1 {
        tokens[0]
    } else {
        joined(tokens.drop_last()) + seq!['\n'] + tokens.last()
    }
}

/// The character sequences that a list of strings holds.
pub open spec fn texts(tokens: Seq<String>) -> Seq<Seq<char>> {
    tokens.map_values(|t: String| t@)
}

/// Joins the tokens into one status text, a newline between each two.
pub fn join_status(tokens: &Vec<String>) -> (r: String)
    ensures
        r@ == joined(texts(tokens@)),
{
    let mut r = String::new();
    let n = tokens.len();
    if n == 0 {
        return r;
    }
    r.append(tokens[0].as_str());
    let mut i: usize = 1;
    assert(texts(tokens@).take(1).drop_last() =~= Seq::<Seq<char>>::empty());
    while i < n
        invariant
            1 <= i <= n,
            n == tokens@.len(),
            r@ == joined(texts(tokens@).take(i as int)),
        decreases n - i,
    {
        r.append("\n");
        r.append(tokens[i].as_str());
        proof {
            let prefix = texts(tokens@).take(i as int + 1);
            assert(prefix.drop_last() =~= texts(tokens@).take(i as int));
            reveal_strlit("\n");
        }
        i = i + 1;
    }
    assert(texts(tokens@).take(n as int) =~= texts(tokens@));
    r
}

/// The status that a successful start reports: an empty token, then `mock_string`.
pub fn initialize_status() -> (r: String)
    ensures
        r@ == joined(seq![Seq::<char>::empty(), "mock_string"@]),
        r@ == seq!['\n'] + "mock_string"@,
{
    let tokens: Vec<String> = vec![String::new(), String::from_str("mock_string")];
    let r = join_status(&tokens);
    proof {
        assert(texts(tokens@) =~= seq![Seq::<char>::empty(), "mock_string"@]);
        let t = seq![Seq::<char>::empty(), "mock_string"@];
        assert(t.drop_last().drop_last() =~= Seq::<Seq<char>>::empty());
        assert(joined(t.drop_last()) =~= Seq::<char>::empty());
        assert(joined(t) =~= seq!['\n'] + "mock_string"@);
    }
    r
}

/// The status that a completed teardown reports: one empty token when the
/// worker never ran or succeeded, and otherwise a headline and how it ended.
pub open spec fn teardown_text(worker: WorkerState) -> Seq<char> {
    match worker {
        WorkerState::Failed(f) => "worker failed"@ + seq!['\n'] + failure_text(f),
        WorkerState::Running => "teardown partial"@ + seq!['\n'] + "worker still running"@,
        _ => Seq::empty(),
    }
}

/// The status that a teardown reports, given how the worker had ended.
pub fn teardown_status(worker: WorkerState) -> (r: String)
    ensures
        r@ == teardown_text(worker),
{
    match worker {
        WorkerState::Failed(f) => {
            proof {
                reveal_strlit("worker failed");
            }
            headline_status("worker failed", f.describe())
        },
        WorkerState::Running => {
            proof {
                reveal_strlit("teardown partial");
                reveal_strlit("worker still running");
            }
            headline_status("teardown partial", "worker still running")
        },
        _ => {
            let tokens: Vec<String> = vec![String::new()];
            let r = join_status(&tokens);
            proof {
                assert(texts(tokens@) =~= seq![Seq::<char>::empty()]);
            }
            r
        },
    }
}

/// A status of two tokens: a headline and what it is about.
pub fn headline_status(headline: &str, detail: &str) -> (r: String)
    ensures
        r@ == joined(seq![headline@, detail@]),
        r@ == headline@ + seq!['\n'] + detail@,
{
    let mut r = String::from_str(headline);
    r.append("\n");
    r.append(detail);
    proof {
        reveal_strlit("\n");
        let t = seq![headline@, detail@];
        assert(t.drop_last() =~= seq![headline@]);
        assert(joined(t.drop_last()) == headline@);
        assert(t.last() == detail@);
    }
    r
}

} // verus!
