//! User settings: the panel hotkey, the history limit and the applications
//! whose copies are not recorded.

use vstd::prelude::*;
use crate::text::{ascii_lower_code, eq_ignore_ascii_case, str_eq_ignore_ascii_case};

verus! {

broadcast use vstd::string::group_string_axioms;

/// The user's settings.
#[derive(Debug, Clone)]
pub struct Settings {
    pub hotkey: String,
    pub max_clips: i64,
    pub ignored_apps: Vec<String>,
}

/// Whether `app_name` matches one of `ignored`, ignoring ASCII case.
pub open spec fn spec_is_ignored(ignored: Seq<String>, app_name: Seq<char>) -> bool {
    exists|i: int| 0 <= i < ignored.len() && eq_ignore_ascii_case(app_name, #[trigger] ignored[i]@)
}

impl Default for Settings {
    /// Hotkey `Shift+CmdOrCtrl+V`, at most 500 clips, and the password
    /// managers 1Password, Keychain Access and KeePassXC ignored.
    fn default() -> (s: Self)
        ensures
            s.hotkey@ == "Shift+CmdOrCtrl+V"@,
            s.max_clips == 500,
            s.ignored_apps@.len() == 3,
            s.ignored_apps@[0]@ == "1Password"@,
            s.ignored_apps@[1]@ == "Keychain Access"@,
            s.ignored_apps@[2]@ == "KeePassXC"@,
    {
        let mut ignored_apps: Vec<String> = Vec::new();
        ignored_apps.push("1Password".to_string());
        ignored_apps.push("Keychain Access".to_string());
        ignored_apps.push("KeePassXC".to_string());
        Settings { hotkey: "Shift+CmdOrCtrl+V".to_string(), max_clips: 500, ignored_apps }
    }
}

impl Settings {
    /// Whether copies made in `app_name` are to be skipped: it equals one of
    /// the ignored applications up to ASCII case.
    pub fn is_ignored_app(&self, app_name: &str) -> (b: bool)
        ensures
            b == spec_is_ignored(self.ignored_apps@, app_name@),
    {
        let n = self.ignored_apps.len();
        let mut i: usize = 0;
        while i < n
            invariant
                n == self.ignored_apps@.len(),
                i <= n,
                forall|k: int| 0 <= k < i ==> !eq_ignore_ascii_case(app_name@, #[trigger] self.ignored_apps@[k]@),
            decreases n - i,
        {
            if str_eq_ignore_ascii_case(app_name, self.ignored_apps[i].as_str()) {
                return true;
            }
            i = i + 1;
        }
        false
    }

    /// Applies the values the user saved: the hotkey and the limit always,
    /// the ignored applications when given. Returns whether the hotkey
    /// changed, in which case the global shortcut is to be re-registered.
    pub fn apply_update(&mut self, hotkey: String, max_clips: i64, ignored_apps: Option<Vec<String>>) -> (changed: bool)
        ensures
            changed == (old(self).hotkey@ != hotkey@),
            final(self).hotkey == hotkey,
            final(self).max_clips == max_clips,
            final(self).ignored_apps == (match ignored_apps {
                Some(a) => a,
                None => old(self).ignored_apps,
            }),
    {
        let changed = !(self.hotkey == hotkey);
        self.hotkey = hotkey;
        self.max_clips = max_clips;
        if let Some(apps) = ignored_apps {
            self.ignored_apps = apps;
        }
        changed
    }
}

/// Ignoring is case-insensitive: names that differ only in ASCII case are
/// either both ignored or both recorded.
pub proof fn lemma_ignored_case_insensitive(ignored: Seq<String>, a: Seq<char>, b: Seq<char>)
    requires
        eq_ignore_ascii_case(a, b),
    ensures
        spec_is_ignored(ignored, a) == spec_is_ignored(ignored, b),
{
    if spec_is_ignored(ignored, a) {
        let i = choose|i: int| 0 <= i < ignored.len() && eq_ignore_ascii_case(a, #[trigger] ignored[i]@);
        assert forall|k: int| 0 <= k < b.len() implies #[trigger] ascii_lower_code(b[k]) == ascii_lower_code(ignored[i]@[k]) by {
            assert(ascii_lower_code(a[k]) == ascii_lower_code(b[k]));
            assert(ascii_lower_code(a[k]) == ascii_lower_code(ignored[i]@[k]));
        }
        assert(eq_ignore_ascii_case(b, ignored[i]@));
    }
    if spec_is_ignored(ignored, b) {
        let i = choose|i: int| 0 <= i < ignored.len() && eq_ignore_ascii_case(b, #[trigger] ignored[i]@);
        assert forall|k: int| 0 <= k < a.len() implies #[trigger] ascii_lower_code(a[k]) == ascii_lower_code(ignored[i]@[k]) by {
            assert(ascii_lower_code(a[k]) == ascii_lower_code(b[k]));
            assert(ascii_lower_code(b[k]) == ascii_lower_code(ignored[i]@[k]));
        }
        assert(eq_ignore_ascii_case(a, ignored[i]@));
    }
}

} // verus!
