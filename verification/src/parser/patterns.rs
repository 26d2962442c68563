//! The classification engine: a fixed bank of vocabulary patterns mapping
//! a diagnostic message to a warning type and severity.  Evaluation order
//! encodes a deliberate precedence policy — data-race vocabulary always
//! wins over actor-isolation vocabulary, which wins over thread-safety
//! conformance, task-lifecycle, and performance vocabulary, in that order.

use vstd::prelude::*;

use crate::models::warning::{Severity, WarningType};
use crate::phrase::{
    chain2, chain2_exec, chain3, chain3_exec, contains_words, contains_words_exec,
    contains_words_from, lemma_contains_words_monotone, word_wf, words_view,
};
use crate::text::{char_is_word, chars_of, is_word_char};

verus! {

/// Well-formedness of every literal word the vocabulary uses.
proof fn vocab_word_facts()
    ensures
        word_wf("data"@),
        word_wf("race"@),
        word_wf("condition"@),
        word_wf("concurrent"@),
        word_wf("access"@),
        word_wf("mutation"@),
        word_wf("of"@),
        word_wf("captured"@),
        word_wf("var"@),
        word_wf("actor-isolated"@),
        word_wf("property"@),
        word_wf("method"@),
        word_wf("function"@),
        word_wf("instance"@),
        word_wf("let"@),
        word_wf("subscript"@),
        word_wf("cannot"@),
        word_wf("can"@),
        word_wf("not"@),
        word_wf("be"@),
        word_wf("referenced"@),
        word_wf("accessed"@),
        word_wf("called"@),
        word_wf("mutated"@),
        word_wf("is"@),
        word_wf("main"@),
        word_wf("actor"@),
        word_wf("isolation"@),
        word_wf("call"@),
        word_wf("to"@),
        word_wf("unsafe"@),
        word_wf("type"@),
        word_wf("'"@),
        word_wf("does"@),
        word_wf("conform"@),
        word_wf("sendable"@),
        word_wf("capture"@),
        word_wf("requires"@),
        word_wf("non-sendable"@),
        word_wf("task"@),
        word_wf("cancelled"@),
        word_wf("leaked"@),
        word_wf("detached"@),
        word_wf("performance"@),
        word_wf("concurrency"@),
        word_wf("async"@),
        word_wf("overhead"@),
        word_wf("potential"@),
        word_wf("deadlock"@),
        word_wf("excessive"@),
        word_wf("await"@),
{
    reveal_strlit("data");
    reveal_strlit("race");
    reveal_strlit("condition");
    reveal_strlit("concurrent");
    reveal_strlit("access");
    reveal_strlit("mutation");
    reveal_strlit("of");
    reveal_strlit("captured");
    reveal_strlit("var");
    reveal_strlit("actor-isolated");
    reveal_strlit("property");
    reveal_strlit("method");
    reveal_strlit("function");
    reveal_strlit("instance");
    reveal_strlit("let");
    reveal_strlit("subscript");
    reveal_strlit("cannot");
    reveal_strlit("can");
    reveal_strlit("not");
    reveal_strlit("be");
    reveal_strlit("referenced");
    reveal_strlit("accessed");
    reveal_strlit("called");
    reveal_strlit("mutated");
    reveal_strlit("is");
    reveal_strlit("main");
    reveal_strlit("actor");
    reveal_strlit("isolation");
    reveal_strlit("call");
    reveal_strlit("to");
    reveal_strlit("unsafe");
    reveal_strlit("type");
    reveal_strlit("'");
    reveal_strlit("does");
    reveal_strlit("conform");
    reveal_strlit("sendable");
    reveal_strlit("capture");
    reveal_strlit("requires");
    reveal_strlit("non-sendable");
    reveal_strlit("task");
    reveal_strlit("cancelled");
    reveal_strlit("leaked");
    reveal_strlit("detached");
    reveal_strlit("performance");
    reveal_strlit("concurrency");
    reveal_strlit("async");
    reveal_strlit("overhead");
    reveal_strlit("potential");
    reveal_strlit("deadlock");
    reveal_strlit("excessive");
    reveal_strlit("await");
}

fn group1(a: Vec<char>) -> (r: Vec<Vec<char>>)
    ensures
        words_view(r@) =~= seq![a@],
{
    let mut r: Vec<Vec<char>> = Vec::new();
    r.push(a);
    r
}

fn group2(a: Vec<char>, b: Vec<char>) -> (r: Vec<Vec<char>>)
    ensures
        words_view(r@) =~= seq![a@, b@],
{
    let mut r: Vec<Vec<char>> = Vec::new();
    r.push(a);
    r.push(b);
    r
}

fn group3(a: Vec<char>, b: Vec<char>, c: Vec<char>) -> (r: Vec<Vec<char>>)
    ensures
        words_view(r@) =~= seq![a@, b@, c@],
{
    let mut r: Vec<Vec<char>> = Vec::new();
    r.push(a);
    r.push(b);
    r.push(c);
    r
}

fn group4(a: Vec<char>, b: Vec<char>, c: Vec<char>, d: Vec<char>) -> (r: Vec<Vec<char>>)
    ensures
        words_view(r@) =~= seq![a@, b@, c@, d@],
{
    let mut r: Vec<Vec<char>> = Vec::new();
    r.push(a);
    r.push(b);
    r.push(c);
    r.push(d);
    r
}

fn group5(a: Vec<char>, b: Vec<char>, c: Vec<char>, d: Vec<char>, e: Vec<char>) -> (r: Vec<
    Vec<char>,
>)
    ensures
        words_view(r@) =~= seq![a@, b@, c@, d@, e@],
{
    let mut r: Vec<Vec<char>> = Vec::new();
    r.push(a);
    r.push(b);
    r.push(c);
    r.push(d);
    r.push(e);
    r
}

/// Data-race vocabulary: "data race", "race condition", "concurrent
/// access", or "mutation of captured var".
pub open spec fn data_race_text(s: Seq<char>) -> bool {
    ||| contains_words(s, seq!["data"@, "race"@])
    ||| contains_words(s, seq!["race"@, "condition"@])
    ||| contains_words(s, seq!["concurrent"@, "access"@])
    ||| contains_words(s, seq!["mutation"@, "of"@, "captured"@, "var"@])
}

pub fn is_data_race_text(s: &Vec<char>) -> (r: bool)
    ensures
        r == data_race_text(s@),
{
    proof {
        vocab_word_facts();
    }
    let w1 = group2(chars_of("data"), chars_of("race"));
    if contains_words_exec(s, &w1, 0) {
        return true;
    }
    let w2 = group2(chars_of("race"), chars_of("condition"));
    if contains_words_exec(s, &w2, 0) {
        return true;
    }
    let w3 = group2(chars_of("concurrent"), chars_of("access"));
    if contains_words_exec(s, &w3, 0) {
        return true;
    }
    let w4 = group4(chars_of("mutation"), chars_of("of"), chars_of("captured"), chars_of("var"));
    contains_words_exec(s, &w4, 0)
}

/// The member kinds that actor-isolation diagnostics name.
pub open spec fn member_kind_words() -> Seq<Seq<char>> {
    seq!["property"@, "method"@, "function"@, "instance"@, "var"@, "let"@, "subscript"@]
}

/// The access verbs that actor-isolation diagnostics name.
pub open spec fn access_verb_words() -> Seq<Seq<char>> {
    seq!["referenced"@, "accessed"@, "called"@, "mutated"@]
}

fn member_kind_word(m: usize) -> (r: Vec<char>)
    requires
        m < 7,
    ensures
        r@ == member_kind_words()[m as int],
        word_wf(r@),
{
    proof {
        vocab_word_facts();
    }
    if m == 0 {
        chars_of("property")
    } else if m == 1 {
        chars_of("method")
    } else if m == 2 {
        chars_of("function")
    } else if m == 3 {
        chars_of("instance")
    } else if m == 4 {
        chars_of("var")
    } else if m == 5 {
        chars_of("let")
    } else {
        chars_of("subscript")
    }
}

fn access_verb_word(v: usize) -> (r: Vec<char>)
    requires
        v < 4,
    ensures
        r@ == access_verb_words()[v as int],
        word_wf(r@),
{
    proof {
        vocab_word_facts();
    }
    if v == 0 {
        chars_of("referenced")
    } else if v == 1 {
        chars_of("accessed")
    } else if v == 2 {
        chars_of("called")
    } else {
        chars_of("mutated")
    }
}

/// One combination of the "actor-isolated <member kind> ... cannot /
/// can not be <verb>" shape.
pub open spec fn actor_cannot_clause_at(s: Seq<char>, m: int, v: int) -> bool {
    ||| chain2(
        s,
        seq!["actor-isolated"@, member_kind_words()[m]],
        seq!["cannot"@, "be"@, access_verb_words()[v]],
    )
    ||| chain2(
        s,
        seq!["actor-isolated"@, member_kind_words()[m]],
        seq!["can"@, "not"@, "be"@, access_verb_words()[v]],
    )
}

/// "actor-isolated <member kind> ... cannot/can not be
/// referenced/accessed/called/mutated", for some member kind and verb.
pub open spec fn actor_cannot_clause(s: Seq<char>) -> bool {
    exists|m: int, v: int|
        0 <= m < member_kind_words().len() && 0 <= v < access_verb_words().len()
            && #[trigger] actor_cannot_clause_at(s, m, v)
}

fn actor_cannot_exec(s: &Vec<char>) -> (r: bool)
    ensures
        r == actor_cannot_clause(s@),
{
    proof {
        vocab_word_facts();
    }
    let mut m: usize = 0;
    while m < 7
        invariant
            m <= 7,
            forall|m2: int, v2: int|
                0 <= m2 < m && 0 <= v2 < 4 ==> !#[trigger] actor_cannot_clause_at(s@, m2, v2),
        decreases 7 - m,
    {
        let mut v: usize = 0;
        while v < 4
            invariant
                m < 7,
                v <= 4,
                forall|v2: int| 0 <= v2 < v ==> !#[trigger] actor_cannot_clause_at(
                    s@,
                    m as int,
                    v2,
                ),
            decreases 4 - v,
        {
            proof {
                vocab_word_facts();
            }
            let seg1 = group2(chars_of("actor-isolated"), member_kind_word(m));
            let seg2a = group3(chars_of("cannot"), chars_of("be"), access_verb_word(v));
            let hit_a = chain2_exec(s, &seg1, &seg2a, 0);
            let seg1b = group2(chars_of("actor-isolated"), member_kind_word(m));
            let seg2b = group4(
                chars_of("can"),
                chars_of("not"),
                chars_of("be"),
                access_verb_word(v),
            );
            let hit_b = chain2_exec(s, &seg1b, &seg2b, 0);
            if hit_a || hit_b {
                proof {
                    assert(actor_cannot_clause_at(s@, m as int, v as int));
                }
                return true;
            }
            v = v + 1;
        }
        m = m + 1;
    }
    proof {
        if actor_cannot_clause(s@) {
            let (m2, v2) = choose|m2: int, v2: int|
                0 <= m2 < member_kind_words().len() && 0 <= v2 < access_verb_words().len()
                    && #[trigger] actor_cannot_clause_at(s@, m2, v2);
            assert(!actor_cannot_clause_at(s@, m2, v2));
        }
    }
    false
}

/// "<word character> ... is actor-isolated": some word character stands
/// strictly before an occurrence of "is actor-isolated".
pub open spec fn is_actor_isolated_clause(s: Seq<char>) -> bool {
    exists|p: int|
        0 <= p < s.len() && #[trigger] is_word_char(s[p]) && contains_words_from(
            s,
            seq!["is"@, "actor-isolated"@],
            p + 1,
        )
}

fn is_actor_isolated_exec(s: &Vec<char>) -> (r: bool)
    ensures
        r == is_actor_isolated_clause(s@),
{
    proof {
        vocab_word_facts();
    }
    let n = s.len();
    let mut p: usize = 0;
    while p < n
        invariant
            p <= n,
            n == s@.len(),
            forall|k: int| 0 <= k < p ==> !#[trigger] is_word_char(s@[k]),
        decreases n - p,
    {
        if char_is_word(s[p]) {
            proof {
                vocab_word_facts();
            }
            let w = group2(chars_of("is"), chars_of("actor-isolated"));
            let r = contains_words_exec(s, &w, p + 1);
            proof {
                if r {
                    assert(is_actor_isolated_clause(s@));
                }
                if !r && is_actor_isolated_clause(s@) {
                    let p2 = choose|p2: int|
                        0 <= p2 < s@.len() && #[trigger] is_word_char(s@[p2])
                            && contains_words_from(s@, seq!["is"@, "actor-isolated"@], p2 + 1);
                    assert(p <= p2);
                    lemma_contains_words_monotone(
                        s@,
                        seq!["is"@, "actor-isolated"@],
                        p as int + 1,
                        p2 + 1,
                    );
                    assert(false);
                }
            }
            return r;
        }
        p = p + 1;
    }
    false
}

/// Main-actor vocabulary: "main actor ... isolation", "call to main
/// actor", or "main actor ... unsafe".
pub open spec fn main_actor_clause(s: Seq<char>) -> bool {
    ||| chain2(s, seq!["main"@, "actor"@], seq!["isolation"@])
    ||| contains_words(s, seq!["call"@, "to"@, "main"@, "actor"@])
    ||| chain2(s, seq!["main"@, "actor"@], seq!["unsafe"@])
}

fn main_actor_exec(s: &Vec<char>) -> (r: bool)
    ensures
        r == main_actor_clause(s@),
{
    proof {
        vocab_word_facts();
    }
    let m1 = group2(chars_of("main"), chars_of("actor"));
    let i1 = group1(chars_of("isolation"));
    if chain2_exec(s, &m1, &i1, 0) {
        return true;
    }
    let c1 = group4(chars_of("call"), chars_of("to"), chars_of("main"), chars_of("actor"));
    if contains_words_exec(s, &c1, 0) {
        return true;
    }
    let m2 = group2(chars_of("main"), chars_of("actor"));
    let u1 = group1(chars_of("unsafe"));
    chain2_exec(s, &m2, &u1, 0)
}

/// Actor-isolation vocabulary as a whole.
pub open spec fn actor_isolation_text(s: Seq<char>) -> bool {
    actor_cannot_clause(s) || is_actor_isolated_clause(s) || main_actor_clause(s)
}

pub fn is_actor_isolation_text(s: &Vec<char>) -> (r: bool)
    ensures
        r == actor_isolation_text(s@),
{
    if actor_cannot_exec(s) {
        return true;
    }
    if is_actor_isolated_exec(s) {
        return true;
    }
    main_actor_exec(s)
}

/// Thread-safety conformance vocabulary: "type '…' does not conform to …
/// sendable", "capture … requires … sendable", or "non-sendable".
pub open spec fn sendable_text(s: Seq<char>) -> bool {
    ||| chain3(
        s,
        seq!["type"@, "'"@],
        seq!["'"@, "does"@, "not"@, "conform"@, "to"@],
        seq!["sendable"@],
    )
    ||| chain3(s, seq!["capture"@], seq!["requires"@], seq!["sendable"@])
    ||| contains_words(s, seq!["non-sendable"@])
}

pub fn is_sendable_text(s: &Vec<char>) -> (r: bool)
    ensures
        r == sendable_text(s@),
{
    proof {
        vocab_word_facts();
    }
    let t1 = group2(chars_of("type"), chars_of("'"));
    let t2 = group5(chars_of("'"), chars_of("does"), chars_of("not"), chars_of("conform"),
        chars_of("to"));
    let t3 = group1(chars_of("sendable"));
    if chain3_exec(s, &t1, &t2, &t3, 0) {
        return true;
    }
    let c1 = group1(chars_of("capture"));
    let c2 = group1(chars_of("requires"));
    let c3 = group1(chars_of("sendable"));
    if chain3_exec(s, &c1, &c2, &c3, 0) {
        return true;
    }
    let n1 = group1(chars_of("non-sendable"));
    contains_words_exec(s, &n1, 0)
}

/// Task-lifecycle vocabulary: "task … cancelled", "task … leaked", or
/// "detached task".
pub open spec fn task_text(s: Seq<char>) -> bool {
    ||| chain2(s, seq!["task"@], seq!["cancelled"@])
    ||| chain2(s, seq!["task"@], seq!["leaked"@])
    ||| contains_words(s, seq!["detached"@, "task"@])
}

pub fn is_task_text(s: &Vec<char>) -> (r: bool)
    ensures
        r == task_text(s@),
{
    proof {
        vocab_word_facts();
    }
    let t = group1(chars_of("task"));
    let c = group1(chars_of("cancelled"));
    if chain2_exec(s, &t, &c, 0) {
        return true;
    }
    let t2 = group1(chars_of("task"));
    let l = group1(chars_of("leaked"));
    if chain2_exec(s, &t2, &l, 0) {
        return true;
    }
    let d = group2(chars_of("detached"), chars_of("task"));
    contains_words_exec(s, &d, 0)
}

/// Performance vocabulary: "performance … concurrency", "async …
/// overhead", "potential deadlock", or "excessive await".
pub open spec fn performance_text(s: Seq<char>) -> bool {
    ||| chain2(s, seq!["performance"@], seq!["concurrency"@])
    ||| chain2(s, seq!["async"@], seq!["overhead"@])
    ||| contains_words(s, seq!["potential"@, "deadlock"@])
    ||| contains_words(s, seq!["excessive"@, "await"@])
}

pub fn is_performance_text(s: &Vec<char>) -> (r: bool)
    ensures
        r == performance_text(s@),
{
    proof {
        vocab_word_facts();
    }
    let p = group1(chars_of("performance"));
    let c = group1(chars_of("concurrency"));
    if chain2_exec(s, &p, &c, 0) {
        return true;
    }
    let a = group1(chars_of("async"));
    let o = group1(chars_of("overhead"));
    if chain2_exec(s, &a, &o, 0) {
        return true;
    }
    let d = group2(chars_of("potential"), chars_of("deadlock"));
    if contains_words_exec(s, &d, 0) {
        return true;
    }
    let e = group2(chars_of("excessive"), chars_of("await"));
    contains_words_exec(s, &e, 0)
}

/// The classification a message receives: first matching vocabulary wins.
pub open spec fn spec_classify(s: Seq<char>) -> (WarningType, Severity) {
    if data_race_text(s) {
        (WarningType::DataRace, Severity::Critical)
    } else if actor_isolation_text(s) {
        (WarningType::ActorIsolation, Severity::High)
    } else if sendable_text(s) {
        (WarningType::SendableConformance, Severity::High)
    } else if task_text(s) {
        (WarningType::ActorIsolation, Severity::Medium)
    } else if performance_text(s) {
        (WarningType::PerformanceRegression, Severity::Medium)
    } else {
        (WarningType::Unknown, Severity::Low)
    }
}

/// Classify a message already split into characters.
pub fn categorize_chars(s: &Vec<char>) -> (r: (WarningType, Severity))
    ensures
        r == spec_classify(s@),
{
    if is_data_race_text(s) {
        (WarningType::DataRace, Severity::Critical)
    } else if is_actor_isolation_text(s) {
        (WarningType::ActorIsolation, Severity::High)
    } else if is_sendable_text(s) {
        (WarningType::SendableConformance, Severity::High)
    } else if is_task_text(s) {
        (WarningType::ActorIsolation, Severity::Medium)
    } else if is_performance_text(s) {
        (WarningType::PerformanceRegression, Severity::Medium)
    } else {
        (WarningType::Unknown, Severity::Low)
    }
}

/// Map a diagnostic message to its warning type and severity.
pub fn categorize_warning(message: &str) -> (r: (WarningType, Severity))
    ensures
        r == spec_classify(message@),
{
    let chars = chars_of(message);
    categorize_chars(&chars)
}

/// Classification precedence: a message that carries the "data race"
/// vocabulary classifies as a data race with critical severity, whatever
/// other vocabulary (actor isolation included) it also carries.
pub proof fn lemma_data_race_precedence(s: Seq<char>)
    requires
        contains_words(s, seq!["data"@, "race"@]),
    ensures
        spec_classify(s) == (WarningType::DataRace, Severity::Critical),
{
}

} // verus!
