//! What the relay's command line and registry read from text: flag values
//! and stored media kinds.

use vstd::prelude::*;
use crate::server_protocol::messages::MediaKind;
use crate::text::{copy_string, owned, push_str, str_eq};

verus! {

/// The texts of a list of strings.
pub open spec fn arg_texts(args: Seq<String>) -> Seq<Seq<char>> {
    args.map_values(|s: String| s@)
}

/// The position of the first argument equal to the flag.
pub open spec fn flag_position(args: Seq<Seq<char>>, flag: Seq<char>) -> Option<int>
    decreases args.len(),
{
    if args.len() == 0 {
        None
    } else if args[0] == flag {
        Some(0)
    } else {
        match flag_position(args.drop_first(), flag) {
            Some(i) => Some(i + 1),
            None => None,
        }
    }
}

proof fn lemma_flag_position(args: Seq<Seq<char>>, flag: Seq<char>)
    ensures
        flag_position(args, flag) matches Some(i) ==> 0 <= i < args.len() && args[i] == flag && forall|j: int| 0 <= j < i ==> args[j] != flag,
        flag_position(args, flag) is None ==> forall|j: int| 0 <= j < args.len() ==> args[j] != flag,
    decreases args.len(),
{
    if args.len() > 0 {
        lemma_flag_position(args.drop_first(), flag);
        if args[0] != flag {
            assert forall|j: int| 1 <= j < args.len() implies args[j] == args.drop_first()[j - 1] by {}
        }
    }
}

fn find_flag(args: &[String], flag: &str) -> (r: Option<usize>)
    ensures
        match flag_position(arg_texts(args@), flag@) {
            Some(i) => r == Some(i as usize) && i < args@.len(),
            None => r is None,
        },
{
    let ghost a = arg_texts(args@);
    proof {
        lemma_flag_position(a, flag@);
    }
    let mut i: usize = 0;
    while i < args.len()
        invariant
            i <= args@.len(),
            a == arg_texts(args@),
            forall|j: int| 0 <= j < i ==> a[j] != flag@,
            flag_position(a, flag@) matches Some(p) ==> 0 <= p < a.len() && a[p] == flag@ && forall|j: int| 0 <= j < p ==> a[j] != flag@,
            flag_position(a, flag@) is None ==> forall|j: int| 0 <= j < a.len() ==> a[j] != flag@,
        decreases args@.len() - i,
    {
        if str_eq(args[i].as_str(), flag) {
            proof {
                assert(a[i as int] == flag@);
                match flag_position(a, flag@) {
                    Some(p) => {
                        if p < i {
                            assert(a[p] != flag@);
                        } else if p > i {
                            assert(a[i as int] != flag@);
                        }
                    },
                    None => {
                        assert(a[i as int] != flag@);
                    },
                }
            }
            return Some(i);
        }
        i = i + 1;
    }
    proof {
        match flag_position(a, flag@) {
            Some(p) => {
                assert(a[p] != flag@);
            },
            None => {},
        }
    }
    None
}

/// The value after the first occurrence of a required flag: an error when
/// the flag is missing or is the last argument.
pub fn parse_flag(args: &[String], flag: &str) -> (r: Result<String, String>)
    ensures
        match flag_position(arg_texts(args@), flag@) {
            None => r matches Err(e) && e@ == "missing required flag "@ + flag@,
            Some(i) => if i + 1 < args@.len() {
                r matches Ok(v) && v@ == args@[i + 1]@
            } else {
                r matches Err(e) && e@ == "missing value for "@ + flag@
            },
        },
{
    let found = find_flag(args, flag);
    proof {
        lemma_flag_position(arg_texts(args@), flag@);
    }
    match found {
        None => {
            let mut e = owned("missing required flag ");
            push_str(&mut e, flag);
            Err(e)
        },
        Some(i) => {
            if i < args.len() - 1 {
                assert(arg_texts(args@)[i + 1] == args@[i + 1]@);
                Ok(copy_string(&args[i + 1]))
            } else {
                let mut e = owned("missing value for ");
                push_str(&mut e, flag);
                Err(e)
            }
        },
    }
}

/// The value after the first occurrence of an optional flag, if there is
/// one.
pub fn parse_optional_flag(args: &[String], flag: &str) -> (r: Option<String>)
    ensures
        match flag_position(arg_texts(args@), flag@) {
            Some(i) => if i + 1 < args@.len() {
                r matches Some(v) && v@ == args@[i + 1]@
            } else {
                r is None
            },
            None => r is None,
        },
{
    let found = find_flag(args, flag);
    proof {
        lemma_flag_position(arg_texts(args@), flag@);
    }
    match found {
        Some(i) => {
            if i < args.len() - 1 {
                assert(arg_texts(args@)[i + 1] == args@[i + 1]@);
                Some(copy_string(&args[i + 1]))
            } else {
                None
            }
        },
        None => None,
    }
}

/// How the registry stores a media kind.
pub fn media_kind_code(kind: MediaKind) -> (r: &'static str)
    ensures
        r@ == (match kind {
            MediaKind::Photo => "photo"@,
            MediaKind::File => "file"@,
        }),
{
    match kind {
        MediaKind::Photo => "photo",
        MediaKind::File => "file",
    }
}

/// The media kind the registry stored; any other text is refused.
pub fn parse_media_kind(value: &str) -> (r: Result<MediaKind, String>)
    ensures
        value@ == "photo"@ ==> r == Ok::<MediaKind, String>(MediaKind::Photo),
        value@ == "file"@ ==> r == Ok::<MediaKind, String>(MediaKind::File),
        value@ != "photo"@ && value@ != "file"@ ==> (r matches Err(e) && e@ == "unsupported media kind '"@ + value@
            + "'"@),
{
    proof {
        reveal_strlit("photo");
        reveal_strlit("file");
        assert("file"@.len() != "photo"@.len());
    }
    if str_eq(value, "photo") {
        Ok(MediaKind::Photo)
    } else if str_eq(value, "file") {
        Ok(MediaKind::File)
    } else {
        let mut e = owned("unsupported media kind '");
        push_str(&mut e, value);
        push_str(&mut e, "'");
        Err(e)
    }
}

} // verus!
