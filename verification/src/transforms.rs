//! The transforms that a directive can name.

use crate::directive::{arg_value, TransformArgs};
use crate::engine::{
    construction_error_text, kde_shortcut_from_user_input, transformer_model,
    unsorted_lists_from_user_input,
};
use crate::table::{transformer_of, TransformSpecView};
use vstd::prelude::*;
use vstd::string::StringExecFns;

verus! {

/// The transforms that `transform` directives can name.
#[derive(Debug, Clone, Copy, PartialEq, Eq, Structural)]
pub enum Transform {
    /// Compare the value as an unsorted list.
    UnsortedLists,
    /// Treat the two ways in which KDE writes an unset shortcut as equal.
    KdeShortcut,
    /// Take the value from the system keyring.
    Keyring,
}

/// The name by which a directive asks for a transform.
pub open spec fn transform_name(t: Transform) -> Seq<char> {
    match t {
        Transform::UnsortedLists => "unsorted-list"@,
        Transform::KdeShortcut => "kde-shortcut"@,
        Transform::Keyring => "keyring"@,
    }
}

/// The transform that a directive asks for by `name`.
pub open spec fn transform_named(name: Seq<char>) -> Option<Transform> {
    if name == transform_name(Transform::UnsortedLists) {
        Some(Transform::UnsortedLists)
    } else if name == transform_name(Transform::KdeShortcut) {
        Some(Transform::KdeShortcut)
    } else if name == transform_name(Transform::Keyring) {
        Some(Transform::Keyring)
    } else {
        None
    }
}

/// What a user is told of a transform.
pub open spec fn transform_documentation(t: Transform) -> Seq<char> {
    match t {
        Transform::UnsortedLists =>
            "Compare the value as an unsorted list.\nUseful because Konversation likes to reorder lists.\n\nArguments:\n* separator=\",\" (Separating character between list elements)\n"@,
        Transform::KdeShortcut =>
            "Specialised transform to handle KDE changing certain global\nshortcuts back and forth between formats like:\n\nplaymedia=none,,Play media playback\nplaymedia=none,none,Play media playback\n\nNo arguments.\n"@,
        Transform::Keyring =>
            "Get the value for a key from the system keyring. Useful for passwords\netc that you do not want in your dotfiles repo.\n\nArguments:\n* service=\"service-name\"  (service name to find entry in the keyring)\n* user=\"user-name\"        (username to find entry in the keyring)\n\nOn Linux you can add an entry to the keyring using:\nsecret-tool store --label=\"Descriptive name\" service \"service-name\" username \"user-name\"\n"@,
    }
}

/// Whether this build can run the transform. The keyring is not linked in.
pub open spec fn supported(t: Transform) -> bool {
    !(t is Keyring)
}

/// Whether a supported transform takes the given arguments: the unsorted
/// list wants a `separator` of exactly one character and passes over any
/// other argument, the KDE shortcut wants no argument at all.
pub open spec fn accepts(t: Transform, args: Seq<(Seq<char>, Seq<char>)>) -> bool {
    match t {
        Transform::UnsortedLists => arg_value(args, "separator"@) matches Some(v) && v.len() == 1,
        Transform::KdeShortcut => args.len() == 0,
        Transform::Keyring => false,
    }
}

/// `n` dashes.
pub open spec fn dashes(n: nat) -> Seq<char> {
    Seq::new(n, |i: int| '-')
}

/// What the help says of one transform: its name, underlined, and its
/// documentation.
pub open spec fn help_entry(t: Transform) -> Seq<char> {
    transform_name(t) + "\n"@ + dashes(transform_name(t).len()) + "\n"@ + transform_documentation(t)
}

/// The help on transforms: a heading and the entries of the three transforms
/// with a blank line between them.
pub open spec fn help_text() -> Seq<char> {
    "Supported transforms:\n====================\n\n"@ + help_entry(Transform::UnsortedLists)
        + "\n\n"@ + help_entry(Transform::KdeShortcut) + "\n\n"@ + help_entry(Transform::Keyring)
        + "\n"@
}

/// Why a transform could not be made.
#[derive(Debug, Clone, PartialEq, Eq)]
pub enum ConstructError {
    /// This build cannot run the transform.
    Unsupported,
    /// The transform does not take these arguments. The text says why, in the
    /// engine's words.
    Arguments(String),
}

impl Transform {
    /// Makes the transform with the given arguments. It is made exactly when
    /// this build can run the transform and the transform takes the
    /// arguments.
    pub fn construct(self, args: &TransformArgs) -> (r: Result<
        ini_merge::mutations::transforms::TransformerDispatch,
        ConstructError,
    >)
        ensures
            match r {
                Ok(t) => supported(self) && accepts(self, args@) && transformer_model(t)
                    == transformer_of(TransformSpecView { kind: self, args: args@ }),
                Err(ConstructError::Unsupported) => !supported(self),
                Err(ConstructError::Arguments(_)) => supported(self) && !accepts(self, args@),
            },
    {
        proof {
            use_type_invariant(args);
        }
        let made = match self {
            Transform::UnsortedLists => unsorted_lists_from_user_input(args),
            Transform::KdeShortcut => kde_shortcut_from_user_input(args),
            Transform::Keyring => {
                return Err(ConstructError::Unsupported);
            },
        };
        match made {
            Ok(t) => Ok(t),
            Err(e) => Err(ConstructError::Arguments(construction_error_text(&e))),
        }
    }

    /// The name by which a directive asks for this transform.
    pub fn name(self) -> (name: &'static str)
        ensures
            name@ == transform_name(self),
    {
        match self {
            Transform::UnsortedLists => "unsorted-list",
            Transform::KdeShortcut => "kde-shortcut",
            Transform::Keyring => "keyring",
        }
    }

    /// The transform of the given name.
    pub fn from_name(name: &str) -> (t: Option<Transform>)
        ensures
            t == transform_named(name@),
            t matches Some(found) ==> name@ == transform_name(found),
            t is None ==> forall|other: Transform| name@ != transform_name(other),
    {
        if name.eq("unsorted-list") {
            Some(Transform::UnsortedLists)
        } else if name.eq("kde-shortcut") {
            Some(Transform::KdeShortcut)
        } else if name.eq("keyring") {
            Some(Transform::Keyring)
        } else {
            None
        }
    }

    /// What a user is told of this transform.
    pub fn documentation(self) -> (text: &'static str)
        ensures
            text@ == transform_documentation(self),
    {
        match self {
            Transform::UnsortedLists =>
                "Compare the value as an unsorted list.\nUseful because Konversation likes to reorder lists.\n\nArguments:\n* separator=\",\" (Separating character between list elements)\n",
            Transform::KdeShortcut =>
                "Specialised transform to handle KDE changing certain global\nshortcuts back and forth between formats like:\n\nplaymedia=none,,Play media playback\nplaymedia=none,none,Play media playback\n\nNo arguments.\n",
            Transform::Keyring =>
                "Get the value for a key from the system keyring. Useful for passwords\netc that you do not want in your dotfiles repo.\n\nArguments:\n* service=\"service-name\"  (service name to find entry in the keyring)\n* user=\"user-name\"        (username to find entry in the keyring)\n\nOn Linux you can add an entry to the keyring using:\nsecret-tool store --label=\"Descriptive name\" service \"service-name\" username \"user-name\"\n",
        }
    }

    /// Adds what the help says of this transform to `text`.
    fn add_help_entry(self, text: &mut String)
        ensures
            final(text)@ == old(text)@ + help_entry(self),
    {
        let name = self.name();
        let ghost start = text@;
        text.append(name);
        text.append("\n");
        let n: usize = name.unicode_len();
        let mut i: usize = 0;
        while i < n
            invariant
                i <= n,
                text@ == start + name@ + "\n"@ + dashes(i as nat),
            decreases n - i,
        {
            proof {
                assert(dashes(i as nat).push('-') =~= dashes((i + 1) as nat));
                assert((start + name@ + "\n"@ + dashes(i as nat)).push('-') =~= start + name@ + "\n"@
                    + dashes(i as nat).push('-'));
            }
            text.push('-');
            i = i + 1;
        }
        text.append("\n");
        text.append(self.documentation());
        assert(text@ =~= start + help_entry(self));
    }

    /// The help on transforms.
    pub fn help() -> (text: String)
        ensures
            text@ == help_text(),
    {
        let mut text = String::from_str("Supported transforms:\n====================\n\n");
        Transform::UnsortedLists.add_help_entry(&mut text);
        text.append("\n\n");
        Transform::KdeShortcut.add_help_entry(&mut text);
        text.append("\n\n");
        Transform::Keyring.add_help_entry(&mut text);
        text.append("\n");
        text
    }
}

} // verus!
