//! The assistant's settings and whether they can be used.
use vstd::prelude::*;

verus! {

/// Access to the language model service.
#[derive(Debug)]
pub struct GithubConfig {
    pub token: String,
    pub model: String,
}

/// Sound capture settings.
#[derive(Debug)]
pub struct AudioConfig {
    pub input_device: String,
}

/// General behaviour settings.
#[derive(Debug)]
pub struct BehaviorConfig {
    pub log_level: String,
}

/// All settings, as the configuration file holds them.
#[derive(Debug)]
pub struct Config {
    pub github: GithubConfig,
    pub audio: AudioConfig,
    pub behavior: BehaviorConfig,
}

/// The settings as plain text values.
pub struct ConfigView {
    pub token: Seq<char>,
    pub model: Seq<char>,
    pub input_device: Seq<char>,
    pub log_level: Seq<char>,
}

impl View for Config {
    type V = ConfigView;

    open spec fn view(&self) -> ConfigView {
        ConfigView {
            token: self.github.token@,
            model: self.github.model@,
            input_device: self.audio.input_device@,
            log_level: self.behavior.log_level@,
        }
    }
}

/// A token that was never filled in: empty, or the placeholder of the
/// sample configuration.
pub open spec fn token_unset(token: Seq<char>) -> bool {
    token.len() == 0 || token == "YOUR_TOKEN_HERE"@
}

/// What is reported when the token is not set.
pub open spec fn token_unset_message() -> Seq<char> {
    "Токен GitHub не настроен. Отредактируйте ~/.config/tkill-ai/config.toml"@
}

impl Config {
    /// Accepts the settings unless the token is unset.
    pub fn validate(self) -> (r: Result<Config, String>)
        ensures
            r is Err <==> token_unset(self.github.token@),
            r matches Ok(c) ==> c == self,
            r matches Err(e) ==> e@ == token_unset_message(),
    {
        let placeholder = String::from_str("YOUR_TOKEN_HERE");
        if self.github.token == placeholder || self.github.token.as_str().unicode_len() == 0 {
            return Err(
                String::from_str(
                    "Токен GitHub не настроен. Отредактируйте ~/.config/tkill-ai/config.toml",
                ),
            );
        }
        Ok(self)
    }
}

} // verus!
