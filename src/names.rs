use vstd::prelude::*;

verus! {

/// Whether `name` ends in `.json`.
pub open spec fn has_json_suffix(name: Seq<char>) -> bool {
    name.len() >= 5 && name.subrange(name.len() - 5, name.len() as int) == ".json"@
}

/// Whether a file name names a record file: its extension is `json`, with
/// a non-empty stem before it (`.json` alone is a hidden file, no record).
pub open spec fn is_record_name(name: Seq<char>) -> bool {
    name.len() > 5 && has_json_suffix(name)
}

/// The session id of a file name: the name without its `.json` extension.
pub open spec fn session_id_of(name: Seq<char>) -> Seq<char> {
    if has_json_suffix(name) {
        name.take(name.len() - 5)
    } else {
        name
    }
}

pub fn ends_with_json(name: &str) -> (r: bool)
    ensures
        r == has_json_suffix(name@),
{
    let len = name.unicode_len();
    if len < 5 {
        return false;
    }
    let tail = String::from_str(name.substring_char(len - 5, len));
    tail == String::from_str(".json")
}

/// Whether a directory entry of this name is a record file.
pub fn is_record_file(name: &str) -> (r: bool)
    ensures
        r == is_record_name(name@),
{
    name.unicode_len() > 5 && ends_with_json(name)
}

/// The session id that a record file's name stands for.
pub fn session_id_from_name(name: &str) -> (r: String)
    ensures
        r@ == session_id_of(name@),
{
    if ends_with_json(name) {
        let len = name.unicode_len();
        String::from_str(name.substring_char(0, len - 5))
    } else {
        String::from_str(name)
    }
}

/// The session id of `<stem>.json` is the stem, for any non-empty stem.
pub proof fn lemma_id_of_record_name(stem: Seq<char>)
    requires
        stem.len() > 0,
    ensures
        is_record_name(stem + ".json"@),
        session_id_of(stem + ".json"@) == stem,
{
    reveal_strlit(".json");
    let name = stem + ".json"@;
    assert(name.subrange(name.len() - 5, name.len() as int) =~= ".json"@);
    assert(name.take(name.len() - 5) =~= stem);
}

} // verus!
