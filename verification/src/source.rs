//! Parsing of a model descriptor's source string.
//!
//! A source string reads `<prefix>[:<id>]`: the prefix selects the backend
//! and the remainder, if any, is the model identifier handed to it.

use vstd::prelude::*;
use vstd::string::StrSliceExecFns;
use crate::text::str_eq;

verus! {

/// The backend a model descriptor addresses.
#[derive(Clone, Copy, PartialEq, Eq, Structural, Debug)]
pub enum BackendSelector {
    /// A model pulled from the Hugging Face hub.
    HuggingFace,
    /// A model loaded from local weight files.
    LocalFile,
    /// The Anthropic chat API.
    Anthropic,
    /// An Azure OpenAI deployment.
    Azure,
    /// The xAI chat API.
    Xai,
    /// The OpenAI chat API.
    OpenAi,
    /// A recognized source that cannot serve chat completions.
    Unsupported,
}

/// The index of the first `:` of `s` at or after `i`, or the length of
/// `s` if there is none.
pub open spec fn find_colon(s: Seq<char>, i: int) -> int
    recommends
        0 <= i <= s.len(),
    decreases s.len() - i,
{
    if i < 0 || i >= s.len() {
        s.len() as int
    } else if s[i] == ':' {
        i
    } else {
        find_colon(s, i + 1)
    }
}

/// The source prefix: everything before the first `:`, or the whole
/// string if there is none.
pub open spec fn source_prefix(s: Seq<char>) -> Seq<char> {
    s.take(find_colon(s, 0))
}

/// The model identifier: everything after the first `:`, if there is one.
pub open spec fn source_model_id(s: Seq<char>) -> Option<Seq<char>> {
    if find_colon(s, 0) == s.len() {
        None
    } else {
        Some(s.skip(find_colon(s, 0) + 1))
    }
}

/// The backend a source prefix selects, if it is recognized. The
/// `spiceai` source is recognized but serves no chat models.
pub open spec fn selector_of(p: Seq<char>) -> Option<BackendSelector> {
    if p == "huggingface"@ {
        Some(BackendSelector::HuggingFace)
    } else if p == "file"@ {
        Some(BackendSelector::LocalFile)
    } else if p == "anthropic"@ {
        Some(BackendSelector::Anthropic)
    } else if p == "azure"@ {
        Some(BackendSelector::Azure)
    } else if p == "xai"@ {
        Some(BackendSelector::Xai)
    } else if p == "openai"@ {
        Some(BackendSelector::OpenAi)
    } else if p == "spiceai"@ {
        Some(BackendSelector::Unsupported)
    } else {
        None
    }
}

/// The index of the first `:` of `s`, or its character length.
fn find_colon_exec(s: &str) -> (r: usize)
    ensures
        r == find_colon(s@, 0),
        r <= s@.len(),
{
    let n = s.unicode_len();
    let mut i: usize = 0;
    while i < n
        invariant
            0 <= i <= n,
            n == s@.len(),
            find_colon(s@, 0) == find_colon(s@, i as int),
        decreases n - i,
    {
        if s.get_char(i) == ':' {
            return i;
        }
        proof {
            assert(find_colon(s@, i as int) == find_colon(s@, i + 1));
        }
        i += 1;
    }
    n
}

/// Splits a source string into the backend it selects, if recognized, and
/// the model identifier it carries, if any.
pub fn parse_source(from: &str) -> (r: (Option<BackendSelector>, Option<String>))
    ensures
        r.0 == selector_of(source_prefix(from@)),
        match r.1 {
            Some(id) => source_model_id(from@) == Some(id@),
            None => source_model_id(from@) is None,
        },
{
    let n = from.unicode_len();
    let c = find_colon_exec(from);
    let prefix = from.substring_char(0, c);
    proof {
        assert(prefix@ =~= source_prefix(from@));
    }
    let sel: Option<BackendSelector> = if str_eq(prefix, "huggingface") {
        Some(BackendSelector::HuggingFace)
    } else if str_eq(prefix, "file") {
        Some(BackendSelector::LocalFile)
    } else if str_eq(prefix, "anthropic") {
        Some(BackendSelector::Anthropic)
    } else if str_eq(prefix, "azure") {
        Some(BackendSelector::Azure)
    } else if str_eq(prefix, "xai") {
        Some(BackendSelector::Xai)
    } else if str_eq(prefix, "openai") {
        Some(BackendSelector::OpenAi)
    } else if str_eq(prefix, "spiceai") {
        Some(BackendSelector::Unsupported)
    } else {
        None
    };
    let id: Option<String> = if c < n {
        let tail = from.substring_char(c + 1, n);
        proof {
            assert(tail@ =~= from@.skip(c + 1));
        }
        Some(tail.to_owned())
    } else {
        None
    };
    (sel, id)
}

} // verus!
