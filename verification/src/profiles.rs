//! Browser profiles: which directories hold one, what its preferences say of
//! it, and which profile belongs to an account.

use vstd::prelude::*;
use vstd::string::*;
use crate::json::{
    as_elements,
    as_text,
    chars_of,
    element_texts,
    member,
    member_text,
    parse_json,
    parsed_text,
    string_content,
};
use crate::subscription::same_text;

verus! {

/// A browser profile: the name of its directory, the name its owner gave it
/// and the email of the account signed in to it.
#[derive(Debug, Clone, PartialEq, Eq)]
pub struct ChromeProfile {
    pub id: String,
    pub name: String,
    pub email: Option<String>,
}

/// An entry of the browser's data directory: its name and, where it could be
/// read, the text of the preferences file in it.
#[derive(Debug, Clone, PartialEq, Eq)]
pub struct ProfileEntry {
    pub name: String,
    pub preferences: Option<String>,
}

/// What a profile says, as characters.
pub struct ProfileText {
    pub id: Seq<char>,
    pub name: Seq<char>,
    pub email: Option<Seq<char>>,
}

impl View for ChromeProfile {
    type V = ProfileText;

    open spec fn view(&self) -> ProfileText {
        ProfileText {
            id: self.id@,
            name: self.name@,
            email: match self.email {
                Some(email) => Some(email@),
                None => None,
            },
        }
    }
}

/// Whether a directory of this name holds a profile: the default profile, or
/// a numbered one.
pub open spec fn names_profile(name: Seq<char>) -> bool {
    name == "Default"@ || "Profile "@.is_prefix_of(name)
}

/// The name that a preferences document gives the profile, where it gives
/// one: the string at `profile.name`.
pub open spec fn stated_name(document: Seq<char>) -> Option<Seq<char>> {
    string_content(member_text(member_text(document, "profile"@), "name"@))
}

/// The email of the first account that a preferences document lists: the
/// string at `account_info[0].email`.
pub open spec fn stated_email(document: Seq<char>) -> Option<Seq<char>> {
    match element_texts(member_text(document, "account_info"@)) {
        Some(accounts) => if accounts.len() > 0 {
            string_content(member_text(accounts[0], "email"@))
        } else {
            None
        },
        None => None,
    }
}

/// The profile that the preferences in a directory describe; none where the
/// preferences are not a JSON document. A profile without a name of its own
/// goes by the name of its directory.
pub open spec fn described_profile(directory: Seq<char>, preferences: Seq<char>) -> Option<
    ProfileText,
> {
    match parsed_text(preferences) {
        Some(document) => Some(
            ProfileText {
                id: directory,
                name: match stated_name(document) {
                    Some(name) => name,
                    None => directory,
                },
                email: stated_email(document),
            },
        ),
        None => None,
    }
}

/// The profile that an entry of the data directory stands for, if any.
pub open spec fn entry_profile(entry: ProfileEntry) -> Option<ProfileText> {
    if names_profile(entry.name@) && entry.preferences is Some {
        described_profile(entry.name@, entry.preferences.unwrap()@)
    } else {
        None
    }
}

/// The profiles that the entries stand for, in the order of the entries.
pub open spec fn discovered(entries: Seq<ProfileEntry>) -> Seq<ProfileText>
    decreases entries.len(),
{
    if entries.len() == 0 {
        Seq::empty()
    } else {
        match entry_profile(entries.last()) {
            Some(profile) => discovered(entries.drop_last()).push(profile),
            None => discovered(entries.drop_last()),
        }
    }
}

/// Whether two characters are the same but for the case of an ASCII letter.
pub open spec fn same_letter(left: char, right: char) -> bool {
    left == right || ((('A' <= left <= 'Z' && 'a' <= right <= 'z') || ('a' <= left <= 'z' && 'A'
        <= right <= 'Z')) && (left as int - right as int == 32 || right as int - left as int
        == 32))
}

/// Whether two texts are the same but for the case of their ASCII letters.
pub open spec fn same_ignoring_case(left: Seq<char>, right: Seq<char>) -> bool {
    left.len() == right.len() && forall|i: int|
        0 <= i < left.len() ==> same_letter(#[trigger] left[i], right[i])
}

/// Whether a profile is signed in to the account with this email.
pub open spec fn signed_in_as(profile: ChromeProfile, email: Seq<char>) -> bool {
    profile.email is Some && same_ignoring_case(profile.email.unwrap()@, email)
}

/// `str::starts_with` with a string pattern: true exactly when the text
/// begins with the pattern.
#[verifier::external_body]
fn begins_with(text: &str, prefix: &str) -> (begins: bool)
    ensures
        begins == prefix@.is_prefix_of(text@),
{
    text.starts_with(prefix)
}

/// `str::eq_ignore_ascii_case`: true exactly when the two texts are equally
/// long and agree at every position but for the case of ASCII letters. The
/// bytes of a character outside ASCII are never letters, so agreeing byte
/// by byte is agreeing character by character.
#[verifier::external_body]
fn equal_ignoring_case(left: &str, right: &str) -> (same: bool)
    ensures
        same == same_ignoring_case(left@, right@),
{
    left.eq_ignore_ascii_case(right)
}

/// Tells whether a directory of this name holds a profile.
pub fn is_profile_directory(name: &str) -> (holds: bool)
    ensures
        holds == names_profile(name@),
{
    same_text(name, "Default") || begins_with(name, "Profile ")
}

/// Builds a profile from the name of its directory and what its preferences
/// state.
pub fn chrome_profile(directory: String, name: Option<&str>, email: Option<&str>) -> (profile:
    ChromeProfile)
    ensures
        profile@ == (ProfileText {
            id: directory@,
            name: match name {
                Some(n) => n@,
                None => directory@,
            },
            email: chars_of(email),
        }),
{
    let name = match name {
        Some(n) => String::from_str(n),
        None => directory.clone(),
    };
    let email = match email {
        Some(e) => Some(String::from_str(e)),
        None => None,
    };
    ChromeProfile { id: directory, name, email }
}

/// Reads the profile that the preferences in a directory describe.
pub fn profile_from_preferences(directory: String, preferences: &str) -> (profile: Option<
    ChromeProfile,
>)
    ensures
        match profile {
            Some(p) => described_profile(directory@, preferences@) == Some(p@),
            None => described_profile(directory@, preferences@) is None,
        },
{
    match parse_json(preferences) {
        Ok(document) => {
            let name = as_text(member(member(&document, "profile"), "name"));
            let email = match as_elements(member(&document, "account_info")) {
                Some(accounts) => {
                    if accounts.len() > 0 {
                        as_text(member(&accounts[0], "email"))
                    } else {
                        None
                    }
                },
                None => None,
            };
            Some(chrome_profile(directory, name, email))
        },
        Err(_) => None,
    }
}

/// Collects the profiles among the entries of the browser's data directory,
/// in the order of the entries: an entry counts where its name is that of a
/// profile directory and its preferences could be read and are a JSON
/// document.
pub fn get_chrome_profiles(entries: &Vec<ProfileEntry>) -> (profiles: Vec<ChromeProfile>)
    ensures
        profiles@.map_values(|p: ChromeProfile| p@) == discovered(entries@),
{
    let mut profiles: Vec<ChromeProfile> = Vec::new();
    let mut i: usize = 0;
    assert(entries@.take(0) =~= Seq::empty());
    while i < entries.len()
        invariant
            i <= entries.len(),
            profiles@.map_values(|p: ChromeProfile| p@) == discovered(entries@.take(i as int)),
        decreases entries.len() - i,
    {
        let ghost found = profiles@;
        let entry = &entries[i];
        proof {
            assert(entries@.take(i + 1).drop_last() =~= entries@.take(i as int));
            assert(entries@.take(i + 1).last() == *entry);
        }
        if is_profile_directory(entry.name.as_str()) {
            match &entry.preferences {
                Some(text) => {
                    match profile_from_preferences(entry.name.clone(), text.as_str()) {
                        Some(profile) => {
                            profiles.push(profile);
                            assert(profiles@.map_values(|p: ChromeProfile| p@) =~= found.map_values(
                                |p: ChromeProfile| p@,
                            ).push(profile@));
                        },
                        None => {},
                    }
                },
                None => {},
            }
        }
        i = i + 1;
    }
    assert(entries@.take(i as int) =~= entries@);
    profiles
}

/// Picks the profile that belongs to an account: the first in the list whose
/// email is the account's, the case of ASCII letters aside. Returns the
/// directory name of that profile, or nothing where no profile matches.
pub fn auto_select_chrome_profile(profiles: &Vec<ChromeProfile>, email: &str) -> (selected: Option<
    String,
>)
    ensures
        match selected {
            Some(id) => exists|i: int|
                0 <= i < profiles.len() && signed_in_as(#[trigger] profiles[i], email@) && id
                    == profiles[i].id && forall|j: int|
                    0 <= j < i ==> !signed_in_as(#[trigger] profiles[j], email@),
            None => forall|i: int|
                0 <= i < profiles.len() ==> !signed_in_as(#[trigger] profiles[i], email@),
        },
{
    let mut i: usize = 0;
    while i < profiles.len()
        invariant
            i <= profiles.len(),
            forall|j: int| 0 <= j < i ==> !signed_in_as(#[trigger] profiles[j], email@),
        decreases profiles.len() - i,
    {
        let profile = &profiles[i];
        match &profile.email {
            Some(address) => {
                if equal_ignoring_case(address.as_str(), email) {
                    return Some(profile.id.clone());
                }
            },
            None => {},
        }
        i = i + 1;
    }
    None
}

/// The browser's data directory below a home directory.
pub open spec fn data_directory_text(home: Seq<char>) -> Seq<char> {
    home + "/Library/Application Support/Google/Chrome"@
}

/// The preferences file of a profile directory.
pub open spec fn preferences_file_text(data_directory: Seq<char>, name: Seq<char>) -> Seq<char> {
    data_directory + "/"@ + name + "/Preferences"@
}

/// The file of this name directly below a home directory; the selected
/// profile is remembered in such a file.
pub open spec fn selection_file_text(home: Seq<char>, name: Seq<char>) -> Seq<char> {
    home + "/"@ + name
}

/// The argument that makes the browser open in a profile.
pub open spec fn profile_argument_text(profile: Seq<char>) -> Seq<char> {
    "--profile-directory="@ + profile
}

/// Builds the path of the browser's data directory.
pub fn data_directory(home: &str) -> (path: String)
    ensures
        path@ == data_directory_text(home@),
{
    String::from_str(home).concat("/Library/Application Support/Google/Chrome")
}

/// Builds the path of the preferences file of a profile directory.
pub fn preferences_file(data_directory: &str, name: &str) -> (path: String)
    ensures
        path@ == preferences_file_text(data_directory@, name@),
{
    String::from_str(data_directory).concat("/").concat(name).concat("/Preferences")
}

/// Builds the path of the file that remembers the selected profile.
pub fn selection_file(home: &str, name: &str) -> (path: String)
    ensures
        path@ == selection_file_text(home@, name@),
{
    String::from_str(home).concat("/").concat(name)
}

/// Builds the arguments with which the browser opens an address: in the
/// remembered profile, or in the default profile where none is remembered.
pub fn open_url(url: String, selected: Option<String>) -> (arguments: Vec<String>)
    ensures
        arguments@.len() == 2,
        arguments@[0]@ == profile_argument_text(
            match selected {
                Some(profile) => profile@,
                None => "Default"@,
            },
        ),
        arguments@[1] == url,
{
    let profile = match selected {
        Some(profile) => profile,
        None => String::from_str("Default"),
    };
    let mut arguments: Vec<String> = Vec::new();
    arguments.push(String::from_str("--profile-directory=").concat(profile.as_str()));
    arguments.push(url);
    arguments
}

} // verus!
