//! Connection settings of the language-model proxy.
use vstd::prelude::*;

verus! {

/// Where the language-model proxy is and the key to reach it.
#[derive(Debug, Clone)]
pub struct LiteLLMConfig {
    pub api_key: String,
    pub url: String,
}

impl Default for LiteLLMConfig {
    /// No key, and the default proxy address.
    fn default() -> (r: Self)
        ensures
            r.api_key@ == Seq::<char>::empty(),
            r.url@ == "https://litellm.example.in"@,
    {
        LiteLLMConfig {
            api_key: String::new(),
            url: String::from_str("https://litellm.example.in"),
        }
    }
}

} // verus!
