use vstd::prelude::*;
use crate::lsp::analysis::{parse_u32, parse_u32_range};
use crate::text::{ascii_lowered, decimal, is_ascii_text, spec_to_lowercase, str_eq, to_lowercase_str, u64_to_string};

verus! {

/// The command-line tool's settings.
#[derive(Debug)]
pub struct CliConfig {
    pub default_author: String,
    pub default_template: String,
    pub preview_mode: String,
    pub editor: String,
    pub studio_port: u16,
    pub log_level: String,
}

/// `base` joined with the relative path `rel`, with one `/` between them.
pub open spec fn join_path(base: Seq<char>, rel: Seq<char>) -> Seq<char> {
    if base.len() == 0 {
        rel
    } else if base.last() == '/' {
        base + rel
    } else {
        base + "/"@ + rel
    }
}

/// The port number a text gives (`str::parse::<u16>`).
pub open spec fn parse_port(s: Seq<char>) -> Option<u16> {
    match parse_u32(s) {
        Some(v) => if v <= 65535 { Some(v as u16) } else { None },
        None => None,
    }
}

/// The template names that `set` accepts.
pub open spec fn valid_templates() -> Seq<Seq<char>> {
    seq!["starter"@, "platformer"@, "coins"@, "dialogue"@, "motion"@, "lists"@]
}

/// The preview modes that `set` accepts.
pub open spec fn valid_preview_modes() -> Seq<Seq<char>> {
    seq!["popup"@, "window"@, "headless"@]
}

pub struct ConfigV {
    pub default_author: Seq<char>,
    pub default_template: Seq<char>,
    pub preview_mode: Seq<char>,
    pub editor: Seq<char>,
    pub studio_port: u16,
    pub log_level: Seq<char>,
}

pub open spec fn config_view(c: CliConfig) -> ConfigV {
    ConfigV {
        default_author: c.default_author@,
        default_template: c.default_template@,
        preview_mode: c.preview_mode@,
        editor: c.editor@,
        studio_port: c.studio_port,
        log_level: c.log_level@,
    }
}

/// The factory settings, with the given author.
pub open spec fn default_config(author: Seq<char>) -> ConfigV {
    ConfigV {
        default_author: author,
        default_template: "starter"@,
        preview_mode: "popup"@,
        editor: "code"@,
        studio_port: 8080,
        log_level: "info"@,
    }
}

/// The value of a setting by (case-insensitive) key or its short alias.
pub open spec fn config_get(c: ConfigV, key: Seq<char>) -> Option<Seq<char>> {
    config_get_lower(c, spec_to_lowercase(key))
}

/// The value of a setting by its lower-case key `k` or short alias.
pub open spec fn config_get_lower(c: ConfigV, k: Seq<char>) -> Option<Seq<char>> {
    if k == "default_author"@ || k == "author"@ {
        Some(c.default_author)
    } else if k == "default_template"@ || k == "template"@ {
        Some(c.default_template)
    } else if k == "preview_mode"@ || k == "preview"@ {
        Some(c.preview_mode)
    } else if k == "editor"@ {
        Some(c.editor)
    } else if k == "studio_port"@ || k == "port"@ {
        Some(decimal(c.studio_port as nat))
    } else if k == "log_level"@ || k == "log"@ {
        Some(c.log_level)
    } else {
        None
    }
}

/// The settings after setting `key` to `value`, or the error message. Template names and
/// preview modes must be among the valid ones (compared in lower case, and stored so); the
/// port must read as a 16-bit number.
pub open spec fn config_set(c: ConfigV, key: Seq<char>, value: Seq<char>) -> Result<ConfigV, Seq<char>> {
    config_set_lower(c, key, spec_to_lowercase(key), value, spec_to_lowercase(value))
}

/// `config_set` given the key both as given and in lower case (`k`), and the value both as
/// given and in lower case (`v`).
pub open spec fn config_set_lower(
    c: ConfigV,
    key: Seq<char>,
    k: Seq<char>,
    value: Seq<char>,
    v: Seq<char>,
) -> Result<
    ConfigV,
    Seq<char>,
> {
    if k == "default_author"@ || k == "author"@ {
        Ok(ConfigV { default_author: value, ..c })
    } else if k == "default_template"@ || k == "template"@ {
        if valid_templates().contains(v) {
            Ok(ConfigV { default_template: v, ..c })
        } else {
            Err("Invalid template '"@ + value + "'. Valid options: starter, platformer, coins, dialogue, motion, lists"@)
        }
    } else if k == "preview_mode"@ || k == "preview"@ {
        if valid_preview_modes().contains(v) {
            Ok(ConfigV { preview_mode: v, ..c })
        } else {
            Err("Invalid preview mode '"@ + value + "'. Valid options: popup, window, headless"@)
        }
    } else if k == "editor"@ {
        Ok(ConfigV { editor: value, ..c })
    } else if k == "studio_port"@ || k == "port"@ {
        match parse_port(value) {
            Some(p) => Ok(ConfigV { studio_port: p, ..c }),
            None => Err("Port must be a valid number (1-65535)"@),
        }
    } else if k == "log_level"@ || k == "log"@ {
        Ok(ConfigV { log_level: value, ..c })
    } else {
        Err("Unknown configuration key '"@ + key + "'"@)
    }
}

fn parse_port_exec(value: &str) -> (r: Option<u16>)
    ensures
        r == parse_port(value@),
{
    let cs = crate::text::chars_of(value);
    match parse_u32_range(&cs, 0, cs.len()) {
        Some(v) => {
            assert(cs@.subrange(0, cs@.len() as int) =~= value@);
            if v <= 65535 { Some(v as u16) } else { None }
        },
        None => {
            assert(cs@.subrange(0, cs@.len() as int) =~= value@);
            None
        },
    }
}

fn one_of(v: &str, a: &str, b: &str, c: &str, d: &str, e: &str, f: &str) -> (r: bool)
    ensures
        r == seq![a@, b@, c@, d@, e@, f@].contains(v@),
{
    let r = str_eq(v, a) || str_eq(v, b) || str_eq(v, c) || str_eq(v, d) || str_eq(v, e) || str_eq(v, f);
    proof {
        let s = seq![a@, b@, c@, d@, e@, f@];
        if r {
            if v@ == a@ { assert(s[0] == v@); } else if v@ == b@ { assert(s[1] == v@); }
            else if v@ == c@ { assert(s[2] == v@); } else if v@ == d@ { assert(s[3] == v@); }
            else if v@ == e@ { assert(s[4] == v@); } else { assert(s[5] == v@); }
        }
    }
    r
}

impl CliConfig {
    /// The factory settings, with the given author.
    pub fn with_author(author: &str) -> (c: Self)
        ensures
            config_view(c) == default_config(author@),
    {
        CliConfig {
            default_author: String::from_str(author),
            default_template: String::from_str("starter"),
            preview_mode: String::from_str("popup"),
            editor: String::from_str("code"),
            studio_port: 8080,
            log_level: String::from_str("info"),
        }
    }

    /// The settings directory under a home directory.
    pub fn config_dir(home: &str) -> (dir: String)
        ensures
            dir@ == join_path(home@, ".scratch"@),
    {
        let cs = crate::text::chars_of(home);
        if cs.len() == 0 {
            String::from_str(".scratch")
        } else if cs[cs.len() - 1] == '/' {
            let mut s = String::from_str(home);
            s.append(".scratch");
            s
        } else {
            let mut s = String::from_str(home);
            s.append("/");
            s.append(".scratch");
            s
        }
    }

    /// The settings file under a home directory.
    pub fn config_path(home: &str) -> (path: String)
        ensures
            path@ == join_path(join_path(home@, ".scratch"@), "config.json"@),
    {
        let dir = CliConfig::config_dir(home);
        proof {
            reveal_strlit(".scratch");
        }
        let mut s = dir;
        s.append("/");
        s.append("config.json");
        assert(s@ =~= join_path(join_path(home@, ".scratch"@), "config.json"@));
        s
    }

    /// The value of a setting (see `config_get`).
    pub fn get(&self, key: &str) -> (r: Option<String>)
        ensures
            match config_get(config_view(*self), key@) {
                Some(v) => r matches Some(s) && s@ == v,
                None => r is None,
            },
            is_ascii_text(key@) ==> match config_get_lower(config_view(*self), ascii_lowered(key@)) {
                Some(v) => r matches Some(s) && s@ == v,
                None => r is None,
            },
    {
        let lk = to_lowercase_str(key);
        let k = lk.as_str();
        if str_eq(k, "default_author") || str_eq(k, "author") {
            Some(self.default_author.clone())
        } else if str_eq(k, "default_template") || str_eq(k, "template") {
            Some(self.default_template.clone())
        } else if str_eq(k, "preview_mode") || str_eq(k, "preview") {
            Some(self.preview_mode.clone())
        } else if str_eq(k, "editor") {
            Some(self.editor.clone())
        } else if str_eq(k, "studio_port") || str_eq(k, "port") {
            Some(u64_to_string(self.studio_port as u64))
        } else if str_eq(k, "log_level") || str_eq(k, "log") {
            Some(self.log_level.clone())
        } else {
            None
        }
    }

    /// Changes a setting (see `config_set`); on error nothing changes. Saving the settings is
    /// the caller's part.
    pub fn set(&mut self, key: &str, value: &str) -> (r: Result<(), String>)
        ensures
            match config_set(config_view(*old(self)), key@, value@) {
                Ok(c) => r is Ok && config_view(*final(self)) == c,
                Err(m) => r matches Err(s) && s@ == m && config_view(*final(self)) == config_view(*old(self)),
            },
            is_ascii_text(key@) && is_ascii_text(value@) ==> match config_set_lower(
                config_view(*old(self)),
                key@,
                ascii_lowered(key@),
                value@,
                ascii_lowered(value@),
            ) {
                Ok(c) => r is Ok && config_view(*final(self)) == c,
                Err(m) => r matches Err(s) && s@ == m && config_view(*final(self)) == config_view(*old(self)),
            },
    {
        let lk = to_lowercase_str(key);
        let k = lk.as_str();
        if str_eq(k, "default_author") || str_eq(k, "author") {
            self.default_author = String::from_str(value);
            Ok(())
        } else if str_eq(k, "default_template") || str_eq(k, "template") {
            let lv = to_lowercase_str(value);
            if one_of(lv.as_str(), "starter", "platformer", "coins", "dialogue", "motion", "lists") {
                self.default_template = lv;
                Ok(())
            } else {
                let mut m = String::from_str("Invalid template '");
                m.append(value);
                m.append("'. Valid options: starter, platformer, coins, dialogue, motion, lists");
                Err(m)
            }
        } else if str_eq(k, "preview_mode") || str_eq(k, "preview") {
            let lv = to_lowercase_str(value);
            let v = lv.as_str();
            let ok = str_eq(v, "popup") || str_eq(v, "window") || str_eq(v, "headless");
            proof {
                let s = valid_preview_modes();
                if ok {
                    if v@ == "popup"@ { assert(s[0] == v@); } else if v@ == "window"@ { assert(s[1] == v@); }
                    else { assert(s[2] == v@); }
                }
            }
            if ok {
                self.preview_mode = lv;
                Ok(())
            } else {
                let mut m = String::from_str("Invalid preview mode '");
                m.append(value);
                m.append("'. Valid options: popup, window, headless");
                Err(m)
            }
        } else if str_eq(k, "editor") {
            self.editor = String::from_str(value);
            Ok(())
        } else if str_eq(k, "studio_port") || str_eq(k, "port") {
            match parse_port_exec(value) {
                Some(p) => {
                    self.studio_port = p;
                    Ok(())
                },
                None => Err(String::from_str("Port must be a valid number (1-65535)")),
            }
        } else if str_eq(k, "log_level") || str_eq(k, "log") {
            self.log_level = String::from_str(value);
            Ok(())
        } else {
            let mut m = String::from_str("Unknown configuration key '");
            m.append(key);
            m.append("'");
            Err(m)
        }
    }

    /// Restores the factory settings, with the given author. Saving them is the caller's
    /// part.
    pub fn reset(&mut self, author: &str)
        ensures
            config_view(*final(self)) == default_config(author@),
    {
        *self = CliConfig::with_author(author);
    }
}

/// Which setting a key names (by its lower-case form, aliases included), 0 to 5 in the
/// order author, template, preview mode, editor, port, log level; `None` for no setting.
pub open spec fn setting_of(key: Seq<char>) -> Option<int> {
    let k = spec_to_lowercase(key);
    if k == "default_author"@ || k == "author"@ {
        Some(0)
    } else if k == "default_template"@ || k == "template"@ {
        Some(1)
    } else if k == "preview_mode"@ || k == "preview"@ {
        Some(2)
    } else if k == "editor"@ {
        Some(3)
    } else if k == "studio_port"@ || k == "port"@ {
        Some(4)
    } else if k == "log_level"@ || k == "log"@ {
        Some(5)
    } else {
        None
    }
}

/// What reading a setting gives back after `value` was stored under `key`: the value, in
/// lower case for templates and preview modes, and for the port the decimal number it read as.
pub open spec fn stored_value(key: Seq<char>, value: Seq<char>) -> Seq<char> {
    if setting_of(key) == Some(1int) || setting_of(key) == Some(2int) {
        spec_to_lowercase(value)
    } else if setting_of(key) == Some(4int) {
        match parse_port(value) {
            Some(p) => decimal(p as nat),
            None => value,
        }
    } else {
        value
    }
}

/// Reading a setting back after it was written gives what was stored.
pub proof fn law_get_after_set(c: ConfigV, key: Seq<char>, value: Seq<char>)
    requires
        config_set(c, key, value) is Ok,
    ensures
        config_get(config_set(c, key, value)->Ok_0, key) == Some(stored_value(key, value)),
{
}

/// Writing one setting leaves every other setting as it was.
pub proof fn law_set_leaves_other_settings(c: ConfigV, key: Seq<char>, value: Seq<char>, other: Seq<char>)
    requires
        config_set(c, key, value) is Ok,
        setting_of(other) != setting_of(key),
    ensures
        config_get(config_set(c, key, value)->Ok_0, other) == config_get(c, other),
{
}

/// A write that is refused changes nothing, and a key that names no setting is refused.
pub proof fn law_unknown_key_is_refused(c: ConfigV, key: Seq<char>, value: Seq<char>)
    requires
        setting_of(key) is None,
    ensures
        config_set(c, key, value) is Err,
        config_get(c, key) is None,
{
}

} // verus!
