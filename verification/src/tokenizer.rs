//! Decisions behind tokenizer options.
use vstd::prelude::*;

verus! {

/// Options that can be updated on a tokenizer.
#[derive(Debug, Clone, Copy, PartialEq, Eq, Hash, Structural)]
pub enum TokenizerOption {
    /// Controls whether special tokens such as BOS and EOS are added during encoding.
    AddSpecialTokens(bool),
    /// Controls whether special tokens are removed during decoding.
    SkipSpecialTokens(bool),
}

/// The option key and value handed to the native library for an option; a flag
/// is written `"1"` when set and `"0"` otherwise.
pub open spec fn tokenizer_option_pair(o: TokenizerOption) -> (Seq<char>, Seq<char>) {
    match o {
        TokenizerOption::AddSpecialTokens(v) => ("add_special_tokens"@, if v { "1"@ } else { "0"@ }),
        TokenizerOption::SkipSpecialTokens(v) => ("skip_special_tokens"@, if v { "1"@ } else { "0"@ }),
    }
}

impl TokenizerOption {
    /// Returns the key and value handed to the native library for this option.
    pub fn into_pair(self) -> (r: (&'static str, &'static str))
        ensures
            (r.0@, r.1@) == tokenizer_option_pair(self),
    {
        match self {
            TokenizerOption::AddSpecialTokens(value) => (
                "add_special_tokens",
                if value {
                    "1"
                } else {
                    "0"
                },
            ),
            TokenizerOption::SkipSpecialTokens(value) => (
                "skip_special_tokens",
                if value {
                    "1"
                } else {
                    "0"
                },
            ),
        }
    }
}

/// Builds the parallel key and value lists handed to the native library when
/// tokenizer options are updated: the `k`-th key and value belong to the `k`-th
/// option.
pub fn tokenizer_option_arguments(options: &[TokenizerOption]) -> (r: (Vec<&'static str>, Vec<&'static str>))
    ensures
        r.0@.len() == options@.len(),
        r.1@.len() == options@.len(),
        forall|k: int|
            0 <= k < options@.len() ==> (#[trigger] r.0@[k]@, r.1@[k]@) == tokenizer_option_pair(options@[k]),
{
    let mut keys: Vec<&'static str> = Vec::new();
    let mut values: Vec<&'static str> = Vec::new();
    let mut i: usize = 0;
    while i < options.len()
        invariant
            i <= options@.len(),
            keys@.len() == i,
            values@.len() == i,
            forall|k: int|
                0 <= k < i ==> (#[trigger] keys@[k]@, values@[k]@) == tokenizer_option_pair(options@[k]),
        decreases options@.len() - i,
    {
        let (key, value) = options[i].into_pair();
        keys.push(key);
        values.push(value);
        i = i + 1;
    }
    (keys, values)
}

/// Each option is handed over under the key of the setting it changes, with `"1"`
/// for a set flag and `"0"` for a cleared one.
pub proof fn lemma_tokenizer_option_pairs()
    ensures
        tokenizer_option_pair(TokenizerOption::AddSpecialTokens(true)) == ("add_special_tokens"@, "1"@),
        tokenizer_option_pair(TokenizerOption::AddSpecialTokens(false)) == ("add_special_tokens"@, "0"@),
        tokenizer_option_pair(TokenizerOption::SkipSpecialTokens(true)) == ("skip_special_tokens"@, "1"@),
        tokenizer_option_pair(TokenizerOption::SkipSpecialTokens(false)) == ("skip_special_tokens"@, "0"@),
{
}

/// The key of an option says which setting it changes, and its value is a flag.
pub proof fn lemma_tokenizer_option_pair_shape(o: TokenizerOption)
    ensures
        tokenizer_option_pair(o).1 == "1"@ || tokenizer_option_pair(o).1 == "0"@,
        (o is AddSpecialTokens) <==> tokenizer_option_pair(o).0 == "add_special_tokens"@,
{
    reveal_strlit("add_special_tokens");
    reveal_strlit("skip_special_tokens");
    if o is SkipSpecialTokens {
        assert(tokenizer_option_pair(o).0[0] != "add_special_tokens"@[0]);
    }
}

} // verus!
