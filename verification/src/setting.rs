//! Application settings: the list of recently opened project files and the
//! configured packaging tools.

use vstd::prelude::*;

verus! {

/// The settings kept across sittings: the history of project paths, newest
/// last, and the optional overrides for the two packaging tools.
pub struct Setting {
    pub history: Vec<String>,
    pub tool_debian: Option<String>,
    pub tool_app_image: Option<String>,
}

/// Spec-level image of a [`Setting`].
#[verifier::ext_equal]
pub struct SettingView {
    pub history: Seq<Seq<char>>,
    pub tool_debian: Option<Seq<char>>,
    pub tool_app_image: Option<Seq<char>>,
}

impl View for Setting {
    type V = SettingView;

    open spec fn view(&self) -> SettingView {
        SettingView {
            history: self.history@.map_values(|s: String| s@),
            tool_debian: match self.tool_debian {
                Some(ref tool) => Some(tool@),
                None => None,
            },
            tool_app_image: match self.tool_app_image {
                Some(ref tool) => Some(tool@),
                None => None,
            },
        }
    }
}

impl Default for Setting {
    /// Fresh settings: no history, no tool overrides.
    fn default() -> (r: Self)
        ensures
            r@ == (SettingView { history: Seq::empty(), tool_debian: None, tool_app_image: None }),
    {
        let r = Setting { history: Vec::new(), tool_debian: None, tool_app_image: None };
        proof {
            assert(r@ =~~= (SettingView {
                history: Seq::empty(),
                tool_debian: None,
                tool_app_image: None,
            }));
        }
        r
    }
}

impl Setting {
    /// Remember a project path: append it to the history unless it is
    /// already there.
    pub fn history_add(&mut self, path: String)
        ensures
            final(self)@ == (if old(self)@.history.contains(path@) {
                old(self)@
            } else {
                SettingView { history: old(self)@.history.push(path@), ..old(self)@ }
            }),
    {
        let mut i: usize = 0;
        while i < self.history.len()
            invariant
                i <= self.history@.len(),
                *self == *old(self),
                forall|k: int| 0 <= k < i ==> self@.history[k] != path@,
            decreases self.history@.len() - i,
        {
            if self.history[i].eq(&path) {
                proof {
                    assert(self@.history[i as int] == path@);
                }
                return ;
            }
            proof {
                assert(self@.history[i as int] == self.history@[i as int]@);
            }
            i += 1;
        }
        self.history.push(path);
        proof {
            assert(!old(self)@.history.contains(path@));
            assert(self@ =~~= (SettingView {
                history: old(self)@.history.push(path@),
                ..old(self)@
            }));
        }
    }
}

} // verus!
