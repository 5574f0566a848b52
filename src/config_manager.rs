use vstd::prelude::*;

verus! {

/// Global settings: the chat model, the default system prompt, the output
/// limit and the size of generated images.
#[derive(Debug)]
pub struct ConfigManager {
    pub chat_model: String,
    pub chat_base_prompt: String,
    pub max_tokens: u32,
    pub image_size: String,
}

/// The default system prompt that a conversation is seeded with.
pub open spec fn default_base_prompt() -> Seq<char> {
    "You are an assistant that is built into a Telegram bot. Only respond with plaintext and if you are writing code begin with CODE-START and end with CODE-END."@
}

impl ConfigManager {
    /// The compiled-in settings.
    pub open spec fn is_default(&self) -> bool {
        &&& self.chat_model@ == "gpt-4"@
        &&& self.chat_base_prompt@ == default_base_prompt()
        &&& self.max_tokens == 1024
        &&& self.image_size@ == "512x512"@
    }

    /// The settings in force, from what the settings store held: the record
    /// itself where it was read, else the compiled-in settings together with
    /// the reason the record could not be read. The caller persists the
    /// settings of a `Defaulted` result.
    pub fn new(stored: Result<ConfigManager, String>) -> (r: ConfigLoad)
        ensures
            match stored {
                Ok(c) => r == ConfigLoad::Loaded(c),
                Err(e) => r matches ConfigLoad::Defaulted(d, why) && d.is_default() && why == e,
            },
    {
        match stored {
            Ok(c) => ConfigLoad::Loaded(c),
            Err(e) => ConfigLoad::Defaulted(ConfigManager::default(), e),
        }
    }
}

impl Default for ConfigManager {
    fn default() -> (r: ConfigManager)
        ensures
            r.is_default(),
    {
        ConfigManager {
            chat_model: String::from_str("gpt-4"),
            chat_base_prompt: String::from_str(
                "You are an assistant that is built into a Telegram bot. Only respond with plaintext and if you are writing code begin with CODE-START and end with CODE-END.",
            ),
            max_tokens: 1024,
            image_size: String::from_str("512x512"),
        }
    }
}

/// Settings, tagged with how they were obtained.
#[derive(Debug)]
pub enum ConfigLoad {
    /// Read from the settings store.
    Loaded(ConfigManager),
    /// The store was missing or unreadable; the compiled-in settings stand in,
    /// with the reason.
    Defaulted(ConfigManager, String),
}

impl ConfigLoad {
    /// The settings, however they were obtained.
    pub fn settings(self) -> (r: ConfigManager)
        ensures
            r == match self {
                ConfigLoad::Loaded(c) => c,
                ConfigLoad::Defaulted(c, _) => c,
            },
    {
        match self {
            ConfigLoad::Loaded(c) => c,
            ConfigLoad::Defaulted(c, _) => c,
        }
    }

    /// Whether the settings must be written back to the store.
    pub fn needs_write(&self) -> (r: bool)
        ensures
            r == (self is Defaulted),
    {
        match self {
            ConfigLoad::Loaded(_) => false,
            ConfigLoad::Defaulted(_, _) => true,
        }
    }
}

} // verus!
