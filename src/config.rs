use vstd::prelude::*;

verus! {

/// The theme used while the configuration names none.
pub open spec fn default_theme() -> Seq<char> {
    seq!['l', 'i', 'g', 'h', 't']
}

/// The theme shown for a stored theme field.
pub open spec fn theme_name(theme: Option<Seq<char>>) -> Seq<char> {
    match theme {
        Some(t) => t,
        None => default_theme(),
    }
}

/// The persisted configuration record: the storage directory override
/// (empty means the default data directory) and the chosen theme.
pub struct AppConfig {
    pub storage_path: String,
    pub theme: Option<String>,
}

impl AppConfig {
    /// The view of the theme field.
    pub open spec fn theme_view(&self) -> Option<Seq<char>> {
        match self.theme {
            Some(t) => Some(t@),
            None => None,
        }
    }

    /// The record written on first run: no override, no theme.
    pub fn new() -> (r: AppConfig)
        ensures
            r.storage_path@ == Seq::<char>::empty(),
            r.theme is None,
    {
        AppConfig { storage_path: String::new(), theme: None }
    }

    /// The theme to show: the stored one, else "light".
    pub fn theme(&self) -> (r: String)
        ensures
            r@ == theme_name(self.theme_view()),
    {
        match &self.theme {
            Some(t) => t.clone(),
            None => {
                proof {
                    reveal_strlit("light");
                }
                String::from_str("light")
            },
        }
    }

    /// Records a theme; the storage path is kept.
    pub fn set_theme(&mut self, theme: String)
        ensures
            final(self).theme == Some(theme),
            final(self).storage_path == old(self).storage_path,
    {
        self.theme = Some(theme);
    }

    /// Records a storage directory override; the theme is kept.
    pub fn set_storage_path(&mut self, path: String)
        ensures
            final(self).storage_path == path,
            final(self).theme == old(self).theme,
    {
        self.storage_path = path;
    }
}

/// What loading the configuration yields: the record found on disk, or the
/// default record together with the demand to write it out now.
pub fn config_on_load(found: Option<AppConfig>) -> (r: (AppConfig, bool))
    ensures
        match found {
            Some(c) => r.0 == c && !r.1,
            None => r.0.storage_path@ == Seq::<char>::empty() && r.0.theme is None && r.1,
        },
{
    match found {
        Some(c) => (c, false),
        None => (AppConfig::new(), true),
    }
}

} // verus!
