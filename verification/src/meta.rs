//! The metadata record: the immutable snapshot of project identity handed to
//! every exporter run, and the desktop-entry text rendered from it.

use vstd::prelude::*;

verus! {

/// Project identity: name, version, icon, maintainer info, and the flags the
/// generated files draw on.  `path` is the directory the project file sits
/// in; staged trees are laid out under it.
pub struct Meta {
    pub path: String,
    pub name: String,
    pub icon: Option<String>,
    pub info: String,
    pub from: String,
    pub version: String,
    pub name_generic: String,
    pub comment: String,
    pub category: String,
    pub key_word: String,
    pub command_line: bool,
}

/// Spec-level image of a [`Meta`].
#[verifier::ext_equal]
pub struct MetaView {
    pub path: Seq<char>,
    pub name: Seq<char>,
    pub icon: Option<Seq<char>>,
    pub info: Seq<char>,
    pub from: Seq<char>,
    pub version: Seq<char>,
    pub name_generic: Seq<char>,
    pub comment: Seq<char>,
    pub category: Seq<char>,
    pub key_word: Seq<char>,
    pub command_line: bool,
}

impl View for Meta {
    type V = MetaView;

    open spec fn view(&self) -> MetaView {
        MetaView {
            path: self.path@,
            name: self.name@,
            icon: match self.icon {
                Some(ref icon) => Some(icon@),
                None => None,
            },
            info: self.info@,
            from: self.from@,
            version: self.version@,
            name_generic: self.name_generic@,
            comment: self.comment@,
            category: self.category@,
            key_word: self.key_word@,
            command_line: self.command_line,
        }
    }
}

/// The `Icon=` line of the desktop entry: the icon sits either at the root of
/// the bundle or under the shared icon directory, chosen by `icon_root`.
pub open spec fn spec_icon_line(name: Seq<char>, icon_root: bool) -> Seq<char> {
    if icon_root {
        "Icon=/"@ + name + "-icon"@
    } else {
        "Icon=/usr/share/icons/"@ + name + "-icon"@
    }
}

/// The full `.desktop`-format text for a project called `name`.
pub open spec fn spec_desktop_file(name: Seq<char>, icon_root: bool) -> Seq<char> {
    "[Desktop Entry]\nName="@ + name + "\n"@ + spec_icon_line(name, icon_root)
        + "\nExec=/usr/bin/"@ + name + "\nType=Application\nCategories=Utility;\n"@
}

impl Default for Meta {
    /// A fresh record: every field empty, no icon, not a command-line
    /// application.
    fn default() -> (r: Self)
        ensures
            r@ == MetaView::empty(),
    {
        Meta {
            path: String::new(),
            name: String::new(),
            icon: None,
            info: String::new(),
            from: String::new(),
            version: String::new(),
            name_generic: String::new(),
            comment: String::new(),
            category: String::new(),
            key_word: String::new(),
            command_line: false,
        }
    }
}

impl MetaView {
    /// The image of a fresh record.
    pub open spec fn empty() -> MetaView {
        MetaView {
            path: Seq::empty(),
            name: Seq::empty(),
            icon: None,
            info: Seq::empty(),
            from: Seq::empty(),
            version: Seq::empty(),
            name_generic: Seq::empty(),
            comment: Seq::empty(),
            category: Seq::empty(),
            key_word: Seq::empty(),
            command_line: false,
        }
    }
}

impl Clone for Meta {
    /// An exact copy of the record.
    fn clone(&self) -> (r: Self)
        ensures
            r@ == self@,
    {
        Meta {
            path: self.path.clone(),
            name: self.name.clone(),
            icon: match &self.icon {
                Some(icon) => Some(icon.clone()),
                None => None,
            },
            info: self.info.clone(),
            from: self.from.clone(),
            version: self.version.clone(),
            name_generic: self.name_generic.clone(),
            comment: self.comment.clone(),
            category: self.category.clone(),
            key_word: self.key_word.clone(),
            command_line: self.command_line,
        }
    }
}

impl Meta {
    /// Render the desktop entry for this project.  `icon_root` selects where
    /// the entry expects the icon: the bundle root (AppImage) or the shared
    /// icon directory (Debian).
    pub fn create_desktop_file(&self, icon_root: bool) -> (r: String)
        ensures
            r@ == spec_desktop_file(self@.name, icon_root),
    {
        let mut file = "[Desktop Entry]\nName=".to_owned();
        file.append(self.name.as_str());
        file.append("\n");
        if icon_root {
            file.append("Icon=/");
            file.append(self.name.as_str());
            file.append("-icon");
        } else {
            file.append("Icon=/usr/share/icons/");
            file.append(self.name.as_str());
            file.append("-icon");
        }
        file.append("\nExec=/usr/bin/");
        file.append(self.name.as_str());
        file.append("\nType=Application\nCategories=Utility;\n");
        file
    }
}

} // verus!
