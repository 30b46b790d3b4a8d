//! Names for disks whose OS strings cannot be shown as they are.
use vstd::prelude::*;
use crate::text::{contains_seq, contains_str, dec_digits, push_decimal};

verus! {

broadcast use vstd::string::group_string_axioms;

/// A title followed by the decimal index, e.g. `"Disk "` and 2 give `"Disk 2"`.
pub open spec fn placeholder(index: nat, title: Seq<char>) -> Seq<char> {
    title + dec_digits(index)
}

/// The literal that stands for an encrypted volume's mapped name.
pub open spec fn luks_disk() -> Seq<char> {
    seq!['l', 'u', 'k', 's', ' ', 'd', 'i', 's', 'k']
}

pub open spec fn luks() -> Seq<char> {
    seq!['l', 'u', 'k', 's']
}

pub open spec fn disk_title() -> Seq<char> {
    seq!['D', 'i', 's', 'k', ' ']
}

pub open spec fn fs_title() -> Seq<char> {
    seq!['u', 'n', 'k', 'n', 'o', 'w', 'n', ' ', 'f', 's', ' ']
}

pub open spec fn mount_title() -> Seq<char> {
    seq!['m', 'o', 'u', 'n', 't', ' ']
}

/// The shown name of the disk at `index`, from its decoded OS name if any.
pub open spec fn disk_name_of(raw: Option<Seq<char>>, index: nat) -> Seq<char> {
    match raw {
        Some(n) => if contains_seq(n, luks()) {
            luks_disk()
        } else if n.len() == 0 {
            placeholder(index, disk_title())
        } else {
            n
        },
        None => placeholder(index, disk_title()),
    }
}

/// The decoded string, or the placeholder for `index` under `title`.
pub open spec fn or_placeholder(raw: Option<Seq<char>>, index: nat, title: Seq<char>) -> Seq<char> {
    match raw {
        Some(s) => s,
        None => placeholder(index, title),
    }
}

/// `title` followed by the decimal text of `index`.
pub fn indexed_title(index: u64, title: &str) -> (r: String)
    ensures
        r@ == placeholder(index as nat, title@),
{
    let mut s = String::from_str(title);
    push_decimal(&mut s, index as u128);
    s
}

/// Appends the index to the title: `placeholdertitle(1, "Disk ")` is `"Disk 1"`.
pub fn placeholdertitle(index: u16, title: String) -> (r: String)
    ensures
        r@ == placeholder(index as nat, title@),
{
    let mut r = title;
    push_decimal(&mut r, index as u128);
    r
}

/// The shown name of a disk: a name that mentions `luks` becomes `"luks disk"`,
/// an empty or undecodable one the placeholder `"Disk <index>"`.
pub fn disk_name(raw: &Option<String>, index: u64) -> (r: String)
    ensures
        r@ == disk_name_of(match raw {
            Some(s) => Some(s@),
            None => None,
        }, index as nat),
{
    proof {
        reveal_strlit("luks");
        reveal_strlit("luks disk");
        reveal_strlit("Disk ");
        assert("luks"@ =~= luks());
        assert("luks disk"@ =~= luks_disk());
        assert("Disk "@ =~= disk_title());
    }
    match raw {
        Some(n) => {
            if contains_str(n.as_str(), "luks") {
                String::from_str("luks disk")
            } else if n.as_str().unicode_len() == 0 {
                indexed_title(index, "Disk ")
            } else {
                n.clone()
            }
        },
        None => indexed_title(index, "Disk "),
    }
}

/// The decoded string, or `title` with the index when there is none.
pub fn name_or_placeholder(raw: &Option<String>, index: u64, title: &str) -> (r: String)
    ensures
        r@ == or_placeholder(match raw {
            Some(s) => Some(s@),
            None => None,
        }, index as nat, title@),
{
    match raw {
        Some(s) => s.clone(),
        None => indexed_title(index, title),
    }
}

/// A disk name that mentions `luks` is always shown as `"luks disk"`,
/// whatever else it holds; a missing or empty name is always shown as
/// `"Disk "` and the disk's index.
pub proof fn lemma_disk_naming(raw: Option<Seq<char>>, index: nat)
    ensures
        raw is Some && contains_seq(raw->0, luks()) ==> disk_name_of(raw, index) == luks_disk(),
        raw is None ==> disk_name_of(raw, index) == placeholder(index, disk_title()),
        raw is Some && raw->0.len() == 0 ==> disk_name_of(raw, index) == placeholder(index, disk_title()),
{
    if raw is Some && raw->0.len() == 0 {
        assert forall|i: int| !crate::text::occurs_at(raw->0, luks(), i) by {}
    }
}

} // verus!
