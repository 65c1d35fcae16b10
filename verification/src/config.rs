//! The settings a dictionary is built with. They are fixed: no settings file
//! and no character-definition file is read.

use vstd::prelude::*;

verus! {

/// One rule for text that the dictionary does not know: the plugin that
/// handles it, the part of speech it assigns, and the connection cost.
#[derive(Debug, Clone, PartialEq, Eq)]
pub struct OovPlugin {
    pub class: String,
    pub oov_pos: Vec<String>,
    pub left_id: i16,
    pub right_id: i16,
    pub cost: i16,
}

/// A rule as a mathematical value.
pub struct OovPluginView {
    pub class: Seq<char>,
    pub oov_pos: Seq<Seq<char>>,
    pub left_id: int,
    pub right_id: int,
    pub cost: int,
}

impl View for OovPlugin {
    type V = OovPluginView;

    open spec fn view(&self) -> OovPluginView {
        OovPluginView {
            class: self.class@,
            oov_pos: self.oov_pos.deep_view(),
            left_id: self.left_id as int,
            right_id: self.right_id as int,
            cost: self.cost as int,
        }
    }
}

impl DeepView for OovPlugin {
    type V = OovPluginView;

    open spec fn deep_view(&self) -> OovPluginView {
        self@
    }
}

/// What the engine is configured with.
#[derive(Debug, Clone, PartialEq, Eq)]
pub struct DictionaryConfig {
    pub oov_provider_plugins: Vec<OovPlugin>,
}

/// A configuration as a mathematical value.
pub struct ConfigView {
    pub oov_provider_plugins: Seq<OovPluginView>,
}

impl View for DictionaryConfig {
    type V = ConfigView;

    open spec fn view(&self) -> ConfigView {
        ConfigView { oov_provider_plugins: self.oov_provider_plugins.deep_view() }
    }
}

/// The one fallback rule: unknown text is a common noun, with both
/// connection ids 0 and cost 30000.
pub open spec fn fallback_rule() -> OovPluginView {
    OovPluginView {
        class: "com.worksap.nlp.sudachi.SimpleOovPlugin"@,
        oov_pos: seq!["名詞"@, "普通名詞"@, "一般"@, "*"@, "*"@, "*"@],
        left_id: 0,
        right_id: 0,
        cost: 30000,
    }
}

/// The configuration every dictionary is built with: the fallback rule and
/// nothing else.
pub open spec fn minimal_config() -> ConfigView {
    ConfigView { oov_provider_plugins: seq![fallback_rule()] }
}

/// Makes the fallback rule.
pub fn default_oov_plugin() -> (plugin: OovPlugin)
    ensures
        plugin@ == fallback_rule(),
{
    let mut oov_pos: Vec<String> = Vec::new();
    oov_pos.push("名詞".to_owned());
    oov_pos.push("普通名詞".to_owned());
    oov_pos.push("一般".to_owned());
    oov_pos.push("*".to_owned());
    oov_pos.push("*".to_owned());
    oov_pos.push("*".to_owned());
    assert(oov_pos.deep_view() =~= fallback_rule().oov_pos);
    OovPlugin {
        class: "com.worksap.nlp.sudachi.SimpleOovPlugin".to_owned(),
        oov_pos,
        left_id: 0,
        right_id: 0,
        cost: 30000,
    }
}

/// Makes the configuration every dictionary is built with.
pub fn default_config() -> (config: DictionaryConfig)
    ensures
        config@ == minimal_config(),
{
    let mut plugins: Vec<OovPlugin> = Vec::new();
    plugins.push(default_oov_plugin());
    assert(plugins.deep_view() =~= minimal_config().oov_provider_plugins);
    DictionaryConfig { oov_provider_plugins: plugins }
}

} // verus!
