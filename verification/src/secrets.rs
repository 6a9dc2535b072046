//! API keys in the OS credential vault: which account each provider's key stands under, and
//! what the vault's answers mean. A key lives only in the vault; the settings keep whether one
//! is set and an edit buffer that is never persisted.

use vstd::prelude::*;

verus! {

/// The service name that every entry stands under.
pub fn service() -> (r: &'static str)
    ensures
        r@ == "dev.lumagen.api-keys"@,
{
    "dev.lumagen.api-keys"
}

/// The providers that a key can be held for.
#[derive(Clone, Copy, Debug, PartialEq, Eq, Structural, Hash)]
pub enum Provider {
    /// fal.ai, the primary image provider.
    Fal,
    /// OpenRouter, the alternate image provider.
    OpenRouter,
    /// The OpenAI entry of the settings screen.
    OpenAi,
    /// The language model of the description check.
    Llm,
}

impl Provider {
    /// The vault account of the provider.
    pub open spec fn account_text(self) -> Seq<char> {
        match self {
            Provider::Fal => "fal"@,
            Provider::OpenRouter => "openrouter"@,
            Provider::OpenAi => "openai"@,
            Provider::Llm => "llm"@,
        }
    }

    /// The vault account of the provider.
    pub fn account(self) -> (r: &'static str)
        ensures
            r@ == self.account_text(),
    {
        match self {
            Provider::Fal => "fal",
            Provider::OpenRouter => "openrouter",
            Provider::OpenAi => "openai",
            Provider::Llm => "llm",
        }
    }
}

/// What the vault answered to a read, a write or a removal.
pub enum VaultAnswer<T> {
    Done(T),
    /// The vault has no such entry.
    NoEntry,
    /// The vault could not be reached, or refused.
    Unavailable,
}

/// The key that a read gave: an entry that is missing and a vault that is unavailable both mean
/// that no key is set.
pub fn load(answer: VaultAnswer<String>) -> (r: Option<String>)
    ensures
        r == (match answer {
            VaultAnswer::Done(key) => Some(key),
            _ => None,
        }),
{
    match answer {
        VaultAnswer::Done(key) => Some(key),
        VaultAnswer::NoEntry => None,
        VaultAnswer::Unavailable => None,
    }
}

/// Whether a write landed in the vault.
pub fn store(answer: &VaultAnswer<()>) -> (r: bool)
    ensures
        r == (*answer is Done),
{
    match answer {
        VaultAnswer::Done(_) => true,
        VaultAnswer::NoEntry => false,
        VaultAnswer::Unavailable => false,
    }
}

/// Whether the entry is gone after a removal: removing a key that was never stored counts as
/// success.
pub fn delete(answer: &VaultAnswer<()>) -> (r: bool)
    ensures
        r == !(*answer is Unavailable),
{
    match answer {
        VaultAnswer::Done(_) => true,
        VaultAnswer::NoEntry => true,
        VaultAnswer::Unavailable => false,
    }
}

} // verus!
