//! Posting as a profile: a member's message that matches the activation of
//! one of their profiles is re-posted through a webhook under the profile's
//! name and avatar.
use regex::Regex;
use vstd::prelude::*;
use crate::profile::ProfileInfo;
use crate::text::{chars_of, matches_at, occurs_at, push_char, same_text};

verus! {

/// Declares `regex::Regex`, a compiled regular expression, so that it can
/// stand in the library's types; nothing is known of what it holds.
#[verifier::external_type_specification]
#[verifier::external_body]
pub struct ExRegex(Regex);

/// The word of an activation that stands for the message text.
pub open spec fn marker() -> Seq<char> {
    seq!['t', 'e', 'x', 't']
}

/// The regular expression group that captures the message text: one or
/// more characters of any kind.
pub open spec fn capture_group() -> Seq<char> {
    seq!['(', '[', '\\', 's', '\\', 'S', ']', '+', ')']
}

/// An activation turned into a pattern: each occurrence of `text`, taken
/// from left to right without overlap, becomes the capture group (as
/// `str::replace` does).
pub open spec fn activation_pattern(activation: Seq<char>) -> Seq<char>
    decreases activation.len(),
{
    if activation.len() < 4 {
        activation
    } else if activation.take(4) == marker() {
        capture_group() + activation_pattern(activation.skip(4))
    } else {
        seq![activation[0]] + activation_pattern(activation.skip(1))
    }
}

/// The pattern of an activation.
pub fn pattern_of(activation: &str) -> (r: String)
    ensures
        r@ == activation_pattern(activation@),
{
    let s = chars_of(activation);
    let m: Vec<char> = vec!['t', 'e', 'x', 't'];
    let g: Vec<char> = vec!['(', '[', '\\', 's', '\\', 'S', ']', '+', ')'];
    assert(m@ =~= marker());
    assert(g@ =~= capture_group());
    let mut out = String::new();
    let mut i: usize = 0;
    assert(s@.skip(0) =~= s@);
    while i < s.len()
        invariant
            i <= s.len(),
            s@ == activation@,
            m@ == marker(),
            g@ == capture_group(),
            out@ + activation_pattern(s@.skip(i as int)) == activation_pattern(s@),
        decreases s.len() - i,
    {
        let ghost rest = s@.skip(i as int);
        if 4 <= s.len() - i && matches_at(s.as_slice(), m.as_slice(), i) {
            assert(rest.take(4) =~= s@.subrange(i as int, i + 4));
            assert(rest.skip(4) =~= s@.skip(i + 4));
            let mut k: usize = 0;
            let ghost before = out@;
            while k < g.len()
                invariant
                    k <= g.len(),
                    g@ == capture_group(),
                    out@ == before + g@.take(k as int),
                decreases g.len() - k,
            {
                push_char(&mut out, g[k]);
                assert(g@.take(k + 1) =~= g@.take(k as int).push(g@[k as int]));
                k = k + 1;
            }
            assert(g@.take(k as int) =~= g@);
            assert(out@ + activation_pattern(s@.skip(i + 4)) =~= before + activation_pattern(rest));
            i = i + 4;
        } else {
            proof {
                if rest.len() >= 4 {
                    assert(rest.take(4) =~= s@.subrange(i as int, i + 4));
                    assert(!occurs_at(s@, marker(), i as int));
                }
            }
            assert(rest.skip(1) =~= s@.skip(i + 1));
            let ghost before = out@;
            push_char(&mut out, s[i]);
            assert(out@ + activation_pattern(s@.skip(i + 1)) =~= before + activation_pattern(rest));
            i = i + 1;
        }
    }
    assert(s@.skip(i as int) =~= Seq::<char>::empty());
    assert(out@ + activation_pattern(Seq::<char>::empty()) =~= out@);
    out
}

} // verus!

verus! {

/// Whether `regex::Regex::new` accepts `pattern`.
pub uninterp spec fn regex_compiles(pattern: Seq<char>) -> bool;

/// What the first search of `pattern` in `haystack` gives, through
/// `regex::Regex::captures`: `None` for no match; else the text of the
/// first capture group, `None` when that group took no part in the match.
pub uninterp spec fn regex_first_group(pattern: Seq<char>, haystack: Seq<char>) -> Option<
    Option<Seq<char>>,
>;

/// A compiled regular expression, with the pattern it was compiled from.
pub struct CompiledPattern {
    regex: Regex,
    pub pattern: Ghost<Seq<char>>,
}

/// Compiles `pattern` with `regex::Regex::new`; `None` when the crate
/// refuses it (a syntax error, or a regex over the default size limit).
/// Which patterns it accepts is left to the name `regex_compiles`.
#[verifier::external_body]
fn compile_pattern(pattern: &str) -> (r: Option<CompiledPattern>)
    ensures
        r is Some <==> regex_compiles(pattern@),
        r matches Some(c) ==> c.pattern@ == pattern@,
{
    match Regex::new(pattern) {
        Ok(regex) => Some(CompiledPattern { regex, pattern: Ghost(pattern@) }),
        Err(_) => None,
    }
}

/// Searches `haystack` with `regex::Regex::captures` and hands back the
/// text of the first capture group (`regex::Captures::get(1)`). The result
/// is left to the name `regex_first_group`.
#[verifier::external_body]
fn first_group(compiled: &CompiledPattern, haystack: &str) -> (r: Option<Option<String>>)
    ensures
        match r {
            None => regex_first_group(compiled.pattern@, haystack@) is None,
            Some(None) => regex_first_group(compiled.pattern@, haystack@) == Some(
                None::<Seq<char>>,
            ),
            Some(Some(text)) => regex_first_group(compiled.pattern@, haystack@) == Some(
                Some(text@),
            ),
        },
{
    match compiled.regex.captures(haystack) {
        None => None,
        Some(caps) => match caps.get(1) {
            Some(m) => Some(Some(m.as_str().to_string())),
            None => Some(None),
        },
    }
}

/// What matching an activation against a message gives: `None` when the
/// activation's pattern does not compile or does not match; else the text
/// captured by its first group, if that group took part.
pub open spec fn activation_outcome(activation: Seq<char>, content: Seq<char>) -> Option<
    Option<Seq<char>>,
> {
    let pattern = activation_pattern(activation);
    if regex_compiles(pattern) {
        regex_first_group(pattern, content)
    } else {
        None
    }
}

/// Matches the activation of `profile` against a message.
pub fn match_activation(profile: &ProfileInfo, content: &str) -> (r: Option<Option<String>>)
    ensures
        match r {
            None => activation_outcome(profile.activation@, content@) is None,
            Some(None) => activation_outcome(profile.activation@, content@) == Some(
                None::<Seq<char>>,
            ),
            Some(Some(text)) => activation_outcome(profile.activation@, content@) == Some(
                Some(text@),
            ),
        },
{
    let pattern = pattern_of(profile.activation.as_str());
    match compile_pattern(pattern.as_str()) {
        None => None,
        Some(compiled) => first_group(&compiled, content),
    }
}

/// A profile whose activation matched a message, with the message text
/// that its capture group took.
#[derive(Debug)]
pub struct HookChoice {
    pub profile: ProfileInfo,
    pub content: String,
}

/// Why no profile could be chosen.
#[derive(Clone, Copy, Debug, PartialEq, Eq, Structural)]
pub enum HookError {
    /// An activation matched but its first capture group took no part in
    /// the match (an activation without `text` can do that).
    MissingCapture,
}

/// The choice after looking at one more profile: unchanged when its
/// activation does not match; the profile and its captured text when it
/// matches; an error when it matches without a captured text.
pub open spec fn step_choice(
    choice: Option<(ProfileInfo, Seq<char>)>,
    profile: ProfileInfo,
    outcome: Option<Option<Seq<char>>>,
) -> Result<Option<(ProfileInfo, Seq<char>)>, HookError> {
    match outcome {
        None => Ok(choice),
        Some(None) => Err(HookError::MissingCapture),
        Some(Some(text)) => Ok(Some((profile, text))),
    }
}

/// The profile that a message is posted as: of the member's profiles, in
/// order, the last whose activation matches, with its captured text.
pub open spec fn chosen_profile(profiles: Seq<ProfileInfo>, content: Seq<char>) -> Result<
    Option<(ProfileInfo, Seq<char>)>,
    HookError,
>
    decreases profiles.len(),
{
    if profiles.len() == 0 {
        Ok(None)
    } else {
        match chosen_profile(profiles.drop_last(), content) {
            Err(e) => Err(e),
            Ok(choice) => step_choice(
                choice,
                profiles.last(),
                activation_outcome(profiles.last().activation@, content),
            ),
        }
    }
}

/// The abstract value of an optional choice.
pub open spec fn choice_view(c: Option<HookChoice>) -> Option<(ProfileInfo, Seq<char>)> {
    match c {
        Some(h) => Some((h.profile, h.content@)),
        None => None,
    }
}

/// The abstract value of a matching outcome.
pub open spec fn outcome_view(o: Option<Option<String>>) -> Option<Option<Seq<char>>> {
    match o {
        None => None,
        Some(None) => Some(None),
        Some(Some(t)) => Some(Some(t@)),
    }
}

/// Takes one more profile into account, given what its activation gave.
pub fn apply_outcome(choice: Option<HookChoice>, profile: &ProfileInfo, outcome: Option<Option<String>>) -> (r: Result<
    Option<HookChoice>,
    HookError,
>)
    ensures
        match step_choice(choice_view(choice), *profile, outcome_view(outcome)) {
            Ok(c) => r matches Ok(rc) && choice_view(rc) == c,
            Err(e) => r == Err::<Option<HookChoice>, HookError>(e),
        },
{
    match outcome {
        None => Ok(choice),
        Some(None) => Err(HookError::MissingCapture),
        Some(Some(text)) => Ok(Some(HookChoice { profile: profile.clone(), content: text })),
    }
}

proof fn lemma_error_persists(profiles: Seq<ProfileInfo>, content: Seq<char>, k: int, e: HookError)
    requires
        0 <= k <= profiles.len(),
        chosen_profile(profiles.take(k), content) == Err::<Option<(ProfileInfo, Seq<char>)>, HookError>(e),
    ensures
        chosen_profile(profiles, content) == Err::<Option<(ProfileInfo, Seq<char>)>, HookError>(e),
    decreases profiles.len() - k,
{
    if k < profiles.len() {
        assert(profiles.take(k + 1).drop_last() =~= profiles.take(k));
        lemma_error_persists(profiles, content, k + 1, e);
    } else {
        assert(profiles.take(k) =~= profiles);
    }
}

/// Chooses the profile that a message is posted as.
pub fn select_profile(profiles: &Vec<ProfileInfo>, content: &str) -> (r: Result<Option<HookChoice>, HookError>)
    ensures
        match chosen_profile(profiles@, content@) {
            Ok(c) => r matches Ok(rc) && choice_view(rc) == c,
            Err(e) => r == Err::<Option<HookChoice>, HookError>(e),
        },
{
    let mut choice: Option<HookChoice> = None;
    let mut i: usize = 0;
    while i < profiles.len()
        invariant
            i <= profiles.len(),
            chosen_profile(profiles@.take(i as int), content@) == Ok::<
                Option<(ProfileInfo, Seq<char>)>,
                HookError,
            >(choice_view(choice)),
        decreases profiles.len() - i,
    {
        assert(profiles@.take(i + 1).drop_last() =~= profiles@.take(i as int));
        let outcome = match_activation(&profiles[i], content);
        match apply_outcome(choice, &profiles[i], outcome) {
            Ok(c) => {
                choice = c;
            },
            Err(e) => {
                proof { lemma_error_persists(profiles@, content@, i + 1, e); }
                return Err(e);
            },
        }
        i = i + 1;
    }
    assert(profiles@.take(i as int) =~= profiles@);
    Ok(choice)
}

/// The name of the webhook that posts as profiles.
pub const HOOK_NAME: &'static str = "EtherHook";

/// What the choice of a webhook reads of one.
#[derive(Debug)]
pub struct WebhookSummary {
    pub has_token: bool,
    pub name: Option<String>,
}

/// Whether a webhook is one that this bot made and can post through.
pub open spec fn is_ether_hook(h: WebhookSummary) -> bool {
    &&& h.has_token
    &&& h.name matches Some(n)
    &&& n@ == HOOK_NAME@
}

/// The first webhook of a channel that this bot made, if any.
pub fn find_ether_hook(hooks: &Vec<WebhookSummary>) -> (r: Option<usize>)
    ensures
        match r {
            Some(i) => i < hooks@.len() && is_ether_hook(hooks@[i as int]) && forall|j: int|
                0 <= j < i ==> !is_ether_hook(#[trigger] hooks@[j]),
            None => forall|j: int| 0 <= j < hooks@.len() ==> !is_ether_hook(#[trigger] hooks@[j]),
        },
{
    let mut i: usize = 0;
    while i < hooks.len()
        invariant
            i <= hooks.len(),
            forall|j: int| 0 <= j < i ==> !is_ether_hook(#[trigger] hooks@[j]),
        decreases hooks.len() - i,
    {
        let h = &hooks[i];
        if h.has_token {
            match &h.name {
                Some(n) => {
                    if same_text(n.as_str(), HOOK_NAME) {
                        return Some(i);
                    }
                },
                None => {},
            }
        }
        i = i + 1;
    }
    None
}

} // verus!

verus! {

/// An activation without the word `text` is its own pattern.
pub proof fn law_pattern_without_marker(activation: Seq<char>)
    requires
        !crate::text::contains_text(activation, marker()),
    ensures
        activation_pattern(activation) == activation,
    decreases activation.len(),
{
    if activation.len() >= 4 {
        assert(activation.take(4) != marker()) by {
            if activation.take(4) == marker() {
                assert(activation.subrange(0, 4) =~= activation.take(4));
                assert(occurs_at(activation, marker(), 0));
            }
        }
        let rest = activation.skip(1);
        assert(!crate::text::contains_text(rest, marker())) by {
            if crate::text::contains_text(rest, marker()) {
                let k = choose|k: int| occurs_at(rest, marker(), k);
                assert(activation.subrange(k + 1, k + 1 + 4) =~= rest.subrange(k, k + 4));
                assert(occurs_at(activation, marker(), k + 1));
            }
        }
        law_pattern_without_marker(rest);
        assert(seq![activation[0]] + rest =~= activation);
    }
}

/// A later profile whose activation matches takes the place of any that
/// matched before it.
pub proof fn law_later_match_wins(profiles: Seq<ProfileInfo>, p: ProfileInfo, content: Seq<char>, text: Seq<char>)
    requires
        chosen_profile(profiles, content) is Ok,
        activation_outcome(p.activation@, content) == Some(Some(text)),
    ensures
        chosen_profile(profiles.push(p), content) == Ok::<Option<(ProfileInfo, Seq<char>)>, HookError>(
            Some((p, text)),
        ),
{
    assert(profiles.push(p).drop_last() =~= profiles);
}

/// A profile whose activation does not match leaves the choice as it was.
pub proof fn law_non_match_keeps_choice(profiles: Seq<ProfileInfo>, p: ProfileInfo, content: Seq<char>)
    requires
        activation_outcome(p.activation@, content) is None,
    ensures
        chosen_profile(profiles.push(p), content) == chosen_profile(profiles, content),
{
    assert(profiles.push(p).drop_last() =~= profiles);
}

} // verus!

verus! {

/// Every occurrence of `text` becomes the capture group, whatever follows
/// it: the pattern of `text` followed by `q` is the capture group followed
/// by the pattern of `q` (so `text /ether` gives `([\s\S]+) /ether`).
pub proof fn law_marker_always_replaced(q: Seq<char>)
    ensures
        activation_pattern(seq!['t', 'e', 'x', 't'] + q) == seq![
            '(',
            '[',
            '\\',
            's',
            '\\',
            'S',
            ']',
            '+',
            ')',
        ] + activation_pattern(q),
{
    let a = seq!['t', 'e', 'x', 't'] + q;
    assert(a.take(4) =~= marker());
    assert(a.skip(4) =~= q);
}

/// Text without the letter `t` passes into the pattern unchanged, and a
/// marker after it is still replaced: the pattern of `p` followed by
/// `text` and `q` is `p`, the capture group, and the pattern of `q`.
pub proof fn law_marker_replaced_after_plain_text(p: Seq<char>, q: Seq<char>)
    requires
        forall|i: int| 0 <= i < p.len() ==> p[i] != 't',
    ensures
        activation_pattern(p + seq!['t', 'e', 'x', 't'] + q) == p + seq![
            '(',
            '[',
            '\\',
            's',
            '\\',
            'S',
            ']',
            '+',
            ')',
        ] + activation_pattern(q),
    decreases p.len(),
{
    if p.len() == 0 {
        assert(p + seq!['t', 'e', 'x', 't'] + q =~= seq!['t', 'e', 'x', 't'] + q);
        law_marker_always_replaced(q);
        assert(p + capture_group() + activation_pattern(q) =~= capture_group() + activation_pattern(q));
    } else {
        let a = p + seq!['t', 'e', 'x', 't'] + q;
        let rest = p.drop_first();
        assert(a[0] == p[0]);
        assert(a.take(4)[0] != 't');
        assert(a.take(4) != marker());
        assert(a.skip(1) =~= rest + seq!['t', 'e', 'x', 't'] + q);
        law_marker_replaced_after_plain_text(rest, q);
        assert(seq![a[0]] + (rest + capture_group() + activation_pattern(q)) =~= p + capture_group()
            + activation_pattern(q));
    }
}

} // verus!
