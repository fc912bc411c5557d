//! The decisions of the request handler, apart from its network calls.
//!
//! The surrounding service chains several outside collaborators — prompt
//! refinement, image generation, a credit ledger, blob storage. Every
//! decision it takes between those calls lives here as a pure function,
//! so the calls themselves can stay at the edge.

use vstd::prelude::*;
use vstd::string::*;

verus! {

/// How many times `c` occurs in `s`.
pub open spec fn count_char(s: Seq<char>, c: char) -> nat
    decreases s.len(),
{
    if s.len() == 0 {
        0
    } else {
        count_char(s.drop_last(), c) + (if s.last() == c {
            1nat
        } else {
            0nat
        })
    }
}

/// The credit gate: a request is served only when the account holds at
/// least one credit.
pub fn has_sufficient_credit(kisses: i64) -> (r: bool)
    ensures
        r == (kisses >= 1),
{
    kisses >= 1
}

/// Chooses the prompt to generate from: the refined prompt when
/// refinement produced one, otherwise the caller's original. Covers both
/// the case of no refinement instruction and a refinement call that
/// failed, which the handler tolerates.
pub fn resolve_prompt(original: &str, refined: Option<String>) -> (r: String)
    ensures
        match refined {
            Some(s) => r@ == s@,
            None => r@ == original@,
        },
{
    match refined {
        Some(s) => s,
        None => String::from_str(original),
    }
}

/// The prompt after the model's trigger texts are attached: the prefix
/// joined with a comma, the suffix with a space.
pub open spec fn with_triggers(
    prompt: Seq<char>,
    prefix: Option<Seq<char>>,
    suffix: Option<Seq<char>>,
) -> Seq<char> {
    let prefixed = match prefix {
        Option::Some(p) => p + ", "@ + prompt,
        Option::None => prompt,
    };
    match suffix {
        Option::Some(s) => prefixed + " "@ + s,
        Option::None => prefixed,
    }
}

/// Attaches a model's optional trigger prefix and suffix to a prompt.
pub fn apply_triggers(prompt: &str, prefix: Option<&str>, suffix: Option<&str>) -> (r: String)
    ensures
        r@ == with_triggers(
            prompt@,
            match prefix {
                Some(p) => Some(p@),
                None => None,
            },
            match suffix {
                Some(s) => Some(s@),
                None => None,
            },
        ),
{
    let mut r = match prefix {
        Some(p) => {
            let mut base = String::from_str(p);
            base.append(", ");
            base.append(prompt);
            base
        },
        None => String::from_str(prompt),
    };
    match suffix {
        Some(s) => {
            r.append(" ");
            r.append(s);
            r
        },
        None => r,
    }
}

/// Splits a model path into its creator and model name: the segments
/// between the last two separators and after the last one. A path with
/// fewer than four slash-separated segments names neither, and both fall
/// back to `unknown`.
#[verifier::rlimit(50)]
pub fn model_parts(path: &str) -> (r: (String, String))
    ensures
        ({
            let s = path@;
            if count_char(s, '/') >= 3 {
                exists|i: int, j: int|
                    0 <= i < j < s.len() && s[i] == '/' && s[j] == '/' && (forall|k: int|
                        i < k < j ==> s[k] != '/') && (forall|k: int|
                        j < k < s.len() ==> s[k] != '/') && r.0@ == s.subrange(i + 1, j) && r.1@
                        == s.subrange(j + 1, s.len() as int)
            } else {
                r.0@ == "unknown"@ && r.1@ == "unknown"@
            }
        }),
{
    let n = path.unicode_len();
    let mut count: usize = 0;
    let mut last: usize = 0;
    let mut has_last: bool = false;
    let mut prev: usize = 0;
    let mut has_prev: bool = false;
    let mut i: usize = 0;
    while i < n
        invariant
            n == path@.len(),
            i <= n,
            count <= i,
            count == count_char(path@.take(i as int), '/'),
            has_last == (count >= 1),
            has_prev == (count >= 2),
            has_last ==> last < i && path@[last as int] == '/' && (forall|k: int|
                last < k < i ==> path@[k] != '/'),
            has_prev ==> prev < last && path@[prev as int] == '/' && (forall|k: int|
                prev < k < last ==> path@[k] != '/'),
        decreases n - i,
    {
        let c = path.get_char(i);
        proof {
            assert(path@.take(i as int + 1).drop_last() =~= path@.take(i as int));
            assert(path@.take(i as int + 1).last() == path@[i as int]);
        }
        if c == '/' {
            if has_last {
                prev = last;
                has_prev = true;
            }
            last = i;
            has_last = true;
            count = count + 1;
        }
        i = i + 1;
    }
    proof {
        assert(path@.take(n as int) =~= path@);
    }
    if count >= 3 {
        let creator = path.substring_char(prev + 1, last).to_owned();
        let name = path.substring_char(last + 1, n).to_owned();
        proof {
            let s = path@;
            let gi = prev as int;
            let gj = last as int;
            assert(0 <= gi < gj < s.len());
            assert(s[gi] == '/' && s[gj] == '/');
            assert(forall|k: int| gi < k < gj ==> s[k] != '/');
            assert(forall|k: int| gj < k < s.len() ==> s[k] != '/');
            assert(creator@ == s.subrange(gi + 1, gj));
            assert(name@ == s.subrange(gj + 1, s.len() as int));
            assert(0 <= gi < gj < s.len() && s[gi] == '/' && s[gj] == '/' && (forall|k: int|
                gi < k < gj ==> s[k] != '/') && (forall|k: int| gj < k < s.len() ==> s[k] != '/')
                && creator@ == s.subrange(gi + 1, gj) && name@ == s.subrange(
                gj + 1,
                s.len() as int,
            ));
        }
        (creator, name)
    } else {
        (String::from_str("unknown"), String::from_str("unknown"))
    }
}

/// The stations a request passes through in the handler.
#[derive(Clone, Copy, Debug, PartialEq, Eq, Structural)]
pub enum Step {
    /// Authenticate the inbound signature and derive the caller's address.
    VerifyRequest,
    /// Ask the ledger whether the caller holds enough credit.
    CheckCredit,
    /// Optionally refine the prompt through the language-model service.
    RefinePrompt,
    /// Generate the image.
    GenerateImage,
    /// Settle credits with the ledger.
    DeductCredit,
    /// Offer the image to blob storage.
    UploadImage,
    /// Sign the response envelope with the enclave key.
    SignResponse,
    /// The request was served.
    Done,
    /// The request was rejected; no later station runs.
    Failed,
}

/// Where the handler goes from `step` once that station has succeeded or
/// failed. Refinement and upload failures are tolerated — the handler
/// carries on with what it has — while every other failure is terminal.
pub open spec fn next_step_of(step: Step, succeeded: bool) -> Step {
    match step {
        Step::VerifyRequest => if succeeded {
            Step::CheckCredit
        } else {
            Step::Failed
        },
        Step::CheckCredit => if succeeded {
            Step::RefinePrompt
        } else {
            Step::Failed
        },
        Step::RefinePrompt => Step::GenerateImage,
        Step::GenerateImage => if succeeded {
            Step::DeductCredit
        } else {
            Step::Failed
        },
        Step::DeductCredit => if succeeded {
            Step::UploadImage
        } else {
            Step::Failed
        },
        Step::UploadImage => Step::SignResponse,
        Step::SignResponse => if succeeded {
            Step::Done
        } else {
            Step::Failed
        },
        Step::Done => Step::Done,
        Step::Failed => Step::Failed,
    }
}

/// Advances the handler's state machine by one station.
pub fn next_step(step: Step, succeeded: bool) -> (r: Step)
    ensures
        r == next_step_of(step, succeeded),
{
    match step {
        Step::VerifyRequest => if succeeded {
            Step::CheckCredit
        } else {
            Step::Failed
        },
        Step::CheckCredit => if succeeded {
            Step::RefinePrompt
        } else {
            Step::Failed
        },
        Step::RefinePrompt => Step::GenerateImage,
        Step::GenerateImage => if succeeded {
            Step::DeductCredit
        } else {
            Step::Failed
        },
        Step::DeductCredit => if succeeded {
            Step::UploadImage
        } else {
            Step::Failed
        },
        Step::UploadImage => Step::SignResponse,
        Step::SignResponse => if succeeded {
            Step::Done
        } else {
            Step::Failed
        },
        Step::Done => Step::Done,
        Step::Failed => Step::Failed,
    }
}

} // verus!
