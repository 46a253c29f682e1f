//! Instance operations: ordering and labelling of public IPv4 targets, and
//! the decisions of the snipe loop (retry until a launch succeeds).

use vstd::prelude::*;
use vstd::multiset::Multiset;
use crate::oci_models::{LifecycleState, state_debug_name};
use crate::oracle::PublicIpv4Target;
use crate::text::{
    concat2, concat3, decimal, decimal_string, lemma_decimal_parses_back, opt_view, parse_u32,
    parse_u32_spec, str_chars, string_of, trim, trim_str,
};
use crate::utils::{humanize_oci_error, humanize_spec, is_retryable_oci_error, retryable_spec};

verus! {

broadcast use vstd::seq_lib::group_to_multiset_ensures, vstd::multiset::group_multiset_axioms;

// ---------------------------------------------------------------------------
// Lexicographic order of character sequences
// ---------------------------------------------------------------------------

/// `a` is at most `b` in lexicographic order by code point (the order of
/// `str`'s `Ord`, since UTF-8 preserves code point order).
pub open spec fn seq_le(a: Seq<char>, b: Seq<char>) -> bool
    decreases a.len(),
{
    if a.len() == 0 {
        true
    } else if b.len() == 0 {
        false
    } else if a[0] < b[0] {
        true
    } else if a[0] == b[0] {
        seq_le(a.drop_first(), b.drop_first())
    } else {
        false
    }
}

/// Lexicographic order is total.
pub proof fn lemma_seq_le_total(a: Seq<char>, b: Seq<char>)
    ensures
        seq_le(a, b) || seq_le(b, a),
    decreases a.len(),
{
    if a.len() > 0 && b.len() > 0 && a[0] == b[0] {
        lemma_seq_le_total(a.drop_first(), b.drop_first());
    }
}

/// Lexicographic order is reflexive.
pub proof fn lemma_seq_le_refl(a: Seq<char>)
    ensures
        seq_le(a, a),
    decreases a.len(),
{
    if a.len() > 0 {
        lemma_seq_le_refl(a.drop_first());
    }
}

/// Lexicographic order is transitive.
pub proof fn lemma_seq_le_trans(a: Seq<char>, b: Seq<char>, c: Seq<char>)
    requires
        seq_le(a, b),
        seq_le(b, c),
    ensures
        seq_le(a, c),
    decreases a.len(),
{
    if a.len() > 0 && b.len() > 0 && c.len() > 0 && a[0] == b[0] && b[0] == c[0] {
        lemma_seq_le_trans(a.drop_first(), b.drop_first(), c.drop_first());
    }
}

/// Lexicographic order is antisymmetric.
pub proof fn lemma_seq_le_antisym(a: Seq<char>, b: Seq<char>)
    requires
        seq_le(a, b),
        seq_le(b, a),
    ensures
        a == b,
    decreases a.len(),
{
    if a.len() > 0 && b.len() > 0 {
        lemma_seq_le_antisym(a.drop_first(), b.drop_first());
        assert(a =~= seq![a[0]] + a.drop_first());
        assert(b =~= seq![b[0]] + b.drop_first());
    }
}

/// Compares two character sequences lexicographically.
pub fn chars_le(a: &[char], b: &[char]) -> (r: bool)
    ensures
        r == seq_le(a@, b@),
{
    let n = a.len();
    let m = b.len();
    let mut i: usize = 0;
    proof {
        assert(a@.skip(0) =~= a@);
        assert(b@.skip(0) =~= b@);
    }
    while i < n && i < m && a[i] == b[i]
        invariant
            n == a@.len(),
            m == b@.len(),
            i <= n,
            i <= m,
            seq_le(a@, b@) == seq_le(a@.skip(i as int), b@.skip(i as int)),
        decreases n - i,
    {
        proof {
            assert(a@.skip(i as int).drop_first() =~= a@.skip(i + 1));
            assert(b@.skip(i as int).drop_first() =~= b@.skip(i + 1));
            assert(a@.skip(i as int)[0] == a@[i as int]);
            assert(b@.skip(i as int)[0] == b@[i as int]);
        }
        i = i + 1;
    }
    if i == n {
        return true;
    }
    if i == m {
        return false;
    }
    proof {
        assert(a@.skip(i as int)[0] == a@[i as int]);
        assert(b@.skip(i as int)[0] == b@[i as int]);
    }
    a[i] < b[i]
}

// ---------------------------------------------------------------------------
// Target order
// ---------------------------------------------------------------------------

/// Running instances come first.
pub open spec fn state_rank(s: LifecycleState) -> u8 {
    if s == LifecycleState::Running {
        0
    } else {
        1
    }
}

/// The display name, empty when there is none.
pub open spec fn name_key(t: PublicIpv4Target) -> Seq<char> {
    match t.display_name {
        Some(n) => n@,
        None => Seq::empty(),
    }
}

/// Targets are listed by state rank, then display name, then instance id.
pub open spec fn target_le(a: PublicIpv4Target, b: PublicIpv4Target) -> bool {
    if state_rank(a.lifecycle_state) != state_rank(b.lifecycle_state) {
        state_rank(a.lifecycle_state) < state_rank(b.lifecycle_state)
    } else if name_key(a) != name_key(b) {
        seq_le(name_key(a), name_key(b))
    } else {
        seq_le(a.instance_id@, b.instance_id@)
    }
}

/// The listing order is total.
pub proof fn lemma_target_le_total(a: PublicIpv4Target, b: PublicIpv4Target)
    ensures
        target_le(a, b) || target_le(b, a),
{
    lemma_seq_le_total(name_key(a), name_key(b));
    lemma_seq_le_total(a.instance_id@, b.instance_id@);
}

/// The listing order is transitive.
pub proof fn lemma_target_le_trans(a: PublicIpv4Target, b: PublicIpv4Target, c: PublicIpv4Target)
    requires
        target_le(a, b),
        target_le(b, c),
    ensures
        target_le(a, c),
{
    if state_rank(a.lifecycle_state) == state_rank(b.lifecycle_state) && state_rank(
        b.lifecycle_state,
    ) == state_rank(c.lifecycle_state) {
        if name_key(a) != name_key(b) && name_key(b) != name_key(c) {
            lemma_seq_le_trans(name_key(a), name_key(b), name_key(c));
            if name_key(a) == name_key(c) {
                lemma_seq_le_antisym(name_key(a), name_key(b));
            }
        } else if name_key(a) == name_key(b) && name_key(b) == name_key(c) {
            lemma_seq_le_trans(a.instance_id@, b.instance_id@, c.instance_id@);
        }
    }
}

fn opt_chars(s: &Option<String>) -> (r: Vec<char>)
    ensures
        r@ == (match s {
            Some(n) => n@,
            None => Seq::<char>::empty(),
        }),
{
    match s {
        Some(n) => str_chars(n.as_str()),
        None => Vec::new(),
    }
}

/// Compares two targets in listing order.
pub fn target_le_exec(a: &PublicIpv4Target, b: &PublicIpv4Target) -> (r: bool)
    ensures
        r == target_le(*a, *b),
{
    let ra: u8 = if a.lifecycle_state == LifecycleState::Running {
        0
    } else {
        1
    };
    let rb: u8 = if b.lifecycle_state == LifecycleState::Running {
        0
    } else {
        1
    };
    if ra != rb {
        return ra < rb;
    }
    let na = opt_chars(&a.display_name);
    let nb = opt_chars(&b.display_name);
    if !crate::text::chars_eq(na.as_slice(), nb.as_slice()) {
        return chars_le(na.as_slice(), nb.as_slice());
    }
    let ia = str_chars(a.instance_id.as_str());
    let ib = str_chars(b.instance_id.as_str());
    chars_le(ia.as_slice(), ib.as_slice())
}

/// Every pair of positions is in listing order.
pub open spec fn targets_sorted(s: Seq<PublicIpv4Target>) -> bool {
    forall|i: int, j: int| 0 <= i < j < s.len() ==> target_le(#[trigger] s[i], #[trigger] s[j])
}

/// In a listing in this order, running instances come before all others.
pub proof fn law_running_listed_first(s: Seq<PublicIpv4Target>, i: int, j: int)
    requires
        targets_sorted(s),
        0 <= i < j < s.len(),
        s[j].lifecycle_state == LifecycleState::Running,
    ensures
        s[i].lifecycle_state == LifecycleState::Running,
{
    assert(target_le(s[i], s[j]));
}

/// Recording a refreshed address keeps a sorted listing sorted: the order
/// only reads the state, the display name and the instance id.
pub proof fn law_refresh_keeps_listing_order(s: Seq<PublicIpv4Target>, i: int, t: PublicIpv4Target)
    requires
        targets_sorted(s),
        0 <= i < s.len(),
        t.lifecycle_state == s[i].lifecycle_state,
        t.display_name == s[i].display_name,
        t.instance_id == s[i].instance_id,
    ensures
        targets_sorted(s.update(i, t)),
{
    let u = s.update(i, t);
    assert forall|a: int, b: int| 0 <= a < b < u.len() implies target_le(#[trigger] u[a], #[trigger] u[b]) by {
        assert(target_le(s[a], s[b]));
    }
}

/// Orders targets for display (insertion sort; equal keys keep their
/// relative order). The result is a sorted permutation of the input.
pub fn sort_targets(targets: Vec<PublicIpv4Target>) -> (r: Vec<PublicIpv4Target>)
    ensures
        targets_sorted(r@),
        r@.to_multiset() == targets@.to_multiset(),
{
    let mut input = targets;
    let mut out: Vec<PublicIpv4Target> = Vec::new();
    proof {
        assert(out@.to_multiset() =~= Multiset::<PublicIpv4Target>::empty());
        assert(out@.to_multiset().add(input@.to_multiset()) =~= targets@.to_multiset());
    }
    while input.len() > 0
        invariant
            targets_sorted(out@),
            out@.to_multiset().add(input@.to_multiset()) == targets@.to_multiset(),
        decreases input@.len(),
    {
        let ghost before_in = input@;
        let x = input.remove(0);
        proof {
            assert(input@ == before_in.remove(0));
            assert(before_in[0] == x);
        }
        let n = out.len();
        let mut j: usize = 0;
        while j < n && target_le_exec(&out[j], &x)
            invariant
                n == out@.len(),
                j <= n,
                targets_sorted(out@),
                forall|k: int| 0 <= k < j ==> target_le(#[trigger] out@[k], x),
            decreases n - j,
        {
            j = j + 1;
        }
        let ghost before_out = out@;
        proof {
            assert forall|k: int| j <= k < n implies target_le(x, #[trigger] before_out[k]) by {
                if j < n {
                    lemma_target_le_total(before_out[j as int], x);
                    if k > j {
                        lemma_target_le_trans(x, before_out[j as int], before_out[k]);
                    }
                }
            }
        }
        out.insert(j, x);
        proof {
            assert(out@ == before_out.insert(j as int, x));
            assert forall|a: int, b: int| 0 <= a < b < out@.len() implies target_le(
                #[trigger] out@[a],
                #[trigger] out@[b],
            ) by {
                if b < j {
                    assert(out@[a] == before_out[a] && out@[b] == before_out[b]);
                } else if b == j {
                    assert(out@[a] == before_out[a]);
                } else if a < j {
                    assert(out@[a] == before_out[a] && out@[b] == before_out[b - 1]);
                    lemma_target_le_trans(before_out[a], x, before_out[b - 1]);
                } else if a == j {
                    assert(out@[b] == before_out[b - 1]);
                } else {
                    assert(out@[a] == before_out[a - 1] && out@[b] == before_out[b - 1]);
                }
            }
            assert(out@.to_multiset() == before_out.to_multiset().insert(x));
            assert(input@.to_multiset() == before_in.to_multiset().remove(x));
            assert(before_in.to_multiset().contains(x));
            assert(out@.to_multiset().add(input@.to_multiset()) =~= before_out.to_multiset().add(
                before_in.to_multiset(),
            ));
        }
    }
    proof {
        assert(input@.to_multiset() =~= Multiset::<PublicIpv4Target>::empty());
        assert(out@.to_multiset().add(input@.to_multiset()) =~= out@.to_multiset());
    }
    out
}

// ---------------------------------------------------------------------------
// Labels
// ---------------------------------------------------------------------------

/// The name shown for a target.
pub open spec fn target_name_spec(t: PublicIpv4Target) -> Seq<char> {
    match t.display_name {
        Some(n) => n@,
        None => "(unnamed)"@,
    }
}

/// The name shown for a target: its display name or `(unnamed)`.
pub fn target_name(target: &PublicIpv4Target) -> (r: &str)
    ensures
        r@ == target_name_spec(*target),
{
    match &target.display_name {
        Some(n) => n.as_str(),
        None => "(unnamed)",
    }
}

/// `s` padded on the right with spaces to `width` characters (`{:<width}`).
pub open spec fn pad_right_spec(s: Seq<char>, width: nat) -> Seq<char> {
    if s.len() >= width {
        s
    } else {
        s + Seq::new((width - s.len()) as nat, |i: int| ' ')
    }
}

/// Pads a string on the right with spaces to `width` characters.
pub fn pad_right(s: &str, width: usize) -> (r: String)
    ensures
        r@ == pad_right_spec(s@, width as nat),
{
    let mut v = str_chars(s);
    let ghost orig = v@;
    if v.len() >= width {
        return string_of(v.as_slice());
    }
    let ghost start = v@.len();
    while v.len() < width
        invariant
            orig.len() == start,
            start < width,
            start <= v@.len() <= width,
            v@ == orig + Seq::new((v@.len() - start) as nat, |i: int| ' '),
        decreases width - v@.len(),
    {
        v.push(' ');
        proof {
            assert(v@ =~= orig + Seq::new((v@.len() - start) as nat, |i: int| ' '));
        }
    }
    string_of(v.as_slice())
}

/// What a target's address column shows: the address, `unavailable` when
/// its lookup failed, or `none`.
pub open spec fn address_label(t: PublicIpv4Target) -> Seq<char> {
    match (t.public_ip, t.public_ip_error) {
        (Some(ip), _) => ip@,
        (None, Some(_)) => "unavailable"@,
        (None, None) => "none"@,
    }
}

/// One line of the instance list: state, name and address in columns.
pub open spec fn target_option_spec(t: PublicIpv4Target) -> Seq<char> {
    pad_right_spec(state_debug_name(t.lifecycle_state), 12) + " "@ + pad_right_spec(
        target_name_spec(t),
        28,
    ) + " "@ + address_label(t)
}

/// Formats one line of the instance list.
pub fn format_target_option(target: &PublicIpv4Target) -> (r: String)
    ensures
        r@ == target_option_spec(*target),
{
    let ip: &str = match (&target.public_ip, &target.public_ip_error) {
        (Some(ip), _) => ip.as_str(),
        (None, Some(_)) => "unavailable",
        (None, None) => "none",
    };
    let state = pad_right(target.lifecycle_state.debug_name(), 12);
    let name = pad_right(target_name(target), 28);
    let a = concat3(state.as_str(), " ", name.as_str());
    concat3(a.as_str(), " ", ip)
}

// ---------------------------------------------------------------------------
// Snipe loop decisions
// ---------------------------------------------------------------------------

/// Progress of a snipe run: attempts made so far, the cap (0 = none) and
/// whether every error is retried.
#[derive(Debug, Clone)]
pub struct SnipeState {
    pub attempt: u32,
    pub max_attempts: u32,
    pub bypass: bool,
}

/// What the loop does next.
#[derive(Debug, Clone)]
pub enum SnipeStep {
    /// Launch attempt number `attempt`.
    Launch { attempt: u32 },
    /// Stop with this reason.
    Stop { reason: String },
}

/// What a failed attempt leads to.
#[derive(Debug, Clone)]
pub struct SnipeFailure {
    /// The readable error.
    pub message: String,
    /// The error is retried (always, in bypass mode).
    pub retryable: bool,
    /// The reason to stop, when the error is not retried.
    pub stop_reason: Option<String>,
}

impl SnipeState {
    /// A fresh run.
    pub fn new(max_attempts: u32, bypass: bool) -> (r: Self)
        ensures
            r.attempt == 0,
            r.max_attempts == max_attempts,
            r.bypass == bypass,
    {
        SnipeState { attempt: 0, max_attempts, bypass }
    }

    /// Counts the next attempt; past a non-zero cap the run stops.
    pub fn next_step(&mut self) -> (r: SnipeStep)
        requires
            old(self).attempt < u32::MAX,
        ensures
            final(self).attempt == old(self).attempt + 1,
            final(self).max_attempts == old(self).max_attempts,
            final(self).bypass == old(self).bypass,
            (old(self).max_attempts != 0 && final(self).attempt > old(self).max_attempts) ==> (
            r matches SnipeStep::Stop { reason } && reason@ == "reached max attempts ("@
                + decimal(old(self).max_attempts as nat) + ")"@),
            !(old(self).max_attempts != 0 && final(self).attempt > old(self).max_attempts) ==> (
            r matches SnipeStep::Launch { attempt } && attempt == final(self).attempt),
    {
        self.attempt = self.attempt + 1;
        if self.max_attempts != 0 && self.attempt > self.max_attempts {
            let n = decimal_string(self.max_attempts as u64);
            SnipeStep::Stop { reason: concat3("reached max attempts (", n.as_str(), ")") }
        } else {
            SnipeStep::Launch { attempt: self.attempt }
        }
    }

    /// Judges a failed launch from its raw error text.
    pub fn on_failure(&self, raw: &str) -> (r: SnipeFailure)
        ensures
            r.message@ == humanize_spec(raw@),
            r.retryable == (self.bypass || retryable_spec(raw@)),
            r.retryable ==> r.stop_reason is None,
            !r.retryable ==> opt_view(r.stop_reason) == Some(
                "aborted on non-retryable error: "@ + humanize_spec(raw@),
            ),
    {
        let message = humanize_oci_error(raw);
        let retryable = self.bypass || is_retryable_oci_error(raw);
        let stop_reason = if retryable {
            None
        } else {
            Some(concat2("aborted on non-retryable error: ", message.as_str()))
        };
        SnipeFailure { message, retryable, stop_reason }
    }
}

/// The attempt cap a prompt answer gives: the trimmed answer read as a
/// `u32`, else the current cap.
pub open spec fn attempts_answer_spec(answer: Seq<char>, current: u32) -> u32 {
    match parse_u32_spec(trim(answer)) {
        Some(v) => v,
        None => current,
    }
}

/// Reads the answer to the attempt cap prompt.
pub fn max_attempts_from_answer(answer: &str, current: u32) -> (r: u32)
    ensures
        r == attempts_answer_spec(answer@, current),
{
    let t = trim_str(answer);
    match parse_u32(t.as_str()) {
        Some(v) => v,
        None => current,
    }
}

/// Accepting the pre-filled answer (the current cap in decimal) keeps the
/// current cap.
pub proof fn law_attempts_default_kept(current: u32)
    ensures
        attempts_answer_spec(decimal(current as nat), current) == current,
{
    lemma_decimal_parses_back(current);
}

/// Marks a target with the address a refresh gave it.
pub fn record_refreshed_ip(target: &mut PublicIpv4Target, new_ip: &str)
    ensures
        opt_view(final(target).public_ip) == Some(new_ip@),
        final(target).public_ip_error is None,
        final(target).instance_id == old(target).instance_id,
        final(target).display_name == old(target).display_name,
        final(target).lifecycle_state == old(target).lifecycle_state,
{
    target.public_ip = Some(String::from_str(new_ip));
    target.public_ip_error = None;
}

} // verus!
