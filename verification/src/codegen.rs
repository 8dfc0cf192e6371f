//! The decisions of the attribute macros that register events and handlers: the
//! identities they give, the names of the items they generate, the derives they add,
//! and the handler signatures they accept.
use crate::text::{decimal_nat, u64_to_decimal};
use std::collections::hash_map::DefaultHasher;
use std::hash::Hasher;
use vstd::std_specs::hash::DefaultHasherAdditionalSpecFns;
use vstd::prelude::*;

verus! {

/// The hash of a string from a fresh `DefaultHasher` of the standard library (hashers
/// made by `DefaultHasher::new` are all alike): `Hash::hash` of the string, then `finish`.
pub open spec fn default_str_hash(s: Seq<char>) -> u64 {
    DefaultHasher::spec_finish(crate::outside::str_hash_writes(Seq::empty(), s))
}

/// The hash of a type's name, from the standard library's `DefaultHasher`.
pub fn hash_type_name(ty: &str) -> (h: u64)
    ensures
        h == default_str_hash(ty@),
{
    let mut hasher = DefaultHasher::new();
    crate::outside::hash_str(ty, &mut hasher);
    hasher.finish()
}

/// A type's name with each `::` (left to right), `<` and `>` made `_`.
pub open spec fn sanitize_spec(s: Seq<char>) -> Seq<char>
    decreases s.len(),
{
    if s.len() == 0 {
        Seq::empty()
    } else if s.len() >= 2 && s[0] == ':' && s[1] == ':' {
        seq!['_'] + sanitize_spec(s.skip(2))
    } else if s[0] == '<' || s[0] == '>' {
        seq!['_'] + sanitize_spec(s.skip(1))
    } else {
        seq![s[0]] + sanitize_spec(s.skip(1))
    }
}

/// The name of a type made fit for an identifier: `::`, `<` and `>` become `_`.
pub fn sanitize_type_name(ty: &str) -> (r: String)
    ensures
        r@ == sanitize_spec(ty@),
{
    let n = ty.unicode_len();
    let mut out = String::new();
    let mut i: usize = 0;
    proof {
        reveal_strlit("_");
    }
    assert(ty@.skip(0) =~= ty@);
    assert(out@ + sanitize_spec(ty@.skip(0)) =~= sanitize_spec(ty@));
    while i < n
        invariant
            n == ty@.len(),
            i <= n,
            out@ + sanitize_spec(ty@.skip(i as int)) == sanitize_spec(ty@),
        decreases n - i,
    {
        let ghost rest = ty@.skip(i as int);
        let ghost prev = out@;
        proof {
            reveal_strlit("_");
        }
        let c = ty.get_char(i);
        assert(rest[0] == c);
        if c == ':' && i + 1 < n && ty.get_char(i + 1) == ':' {
            assert(rest[1] == ':');
            assert(rest.skip(2) =~= ty@.skip(i + 2));
            assert(sanitize_spec(rest) == seq!['_'] + sanitize_spec(rest.skip(2)));
            out.append("_");
            assert(out@ =~= prev + seq!['_']);
            assert(out@ + sanitize_spec(ty@.skip(i + 2)) =~= prev + sanitize_spec(rest));
            i = i + 2;
        } else if c == '<' || c == '>' {
            assert(rest.skip(1) =~= ty@.skip(i + 1));
            assert(!(rest.len() >= 2 && rest[0] == ':' && rest[1] == ':'));
            assert(sanitize_spec(rest) == seq!['_'] + sanitize_spec(rest.skip(1)));
            out.append("_");
            assert(out@ =~= prev + seq!['_']);
            assert(out@ + sanitize_spec(ty@.skip(i + 1)) =~= prev + sanitize_spec(rest));
            i = i + 1;
        } else {
            assert(rest.skip(1) =~= ty@.skip(i + 1));
            assert(!(rest.len() >= 2 && rest[0] == ':' && rest[1] == ':')) by {
                if rest.len() >= 2 && rest[0] == ':' {
                    assert(rest[1] == ty@[i + 1]);
                }
            }
            assert(sanitize_spec(rest) == seq![c] + sanitize_spec(rest.skip(1)));
            out.append(ty.substring_char(i, i + 1));
            assert(ty@.subrange(i as int, i + 1) =~= seq![c]);
            assert(out@ =~= prev + seq![c]);
            assert(out@ + sanitize_spec(ty@.skip(i + 1)) =~= prev + sanitize_spec(rest));
            i = i + 1;
        }
    }
    assert(ty@.skip(i as int) =~= Seq::<char>::empty());
    assert(out@ + Seq::<char>::empty() =~= out@);
    out
}

/// The name of the function that a registration macro generates for a type: the
/// prefix, the sanitized name, `_`, and the hash of the name in decimal.
pub open spec fn registration_fn_name_spec(prefix: Seq<char>, ty: Seq<char>) -> Seq<char> {
    prefix + sanitize_spec(ty) + "_"@ + decimal_nat(default_str_hash(ty) as nat)
}

/// The name of the function that a registration macro generates for a type
/// (`__register_event_db_`, `__factory_event_db_`, `__register_event_pipeline_`, `__register_`).
pub fn registration_fn_name(prefix: &str, ty: &str) -> (r: String)
    ensures
        r@ == registration_fn_name_spec(prefix@, ty@),
{
    let clean = sanitize_type_name(ty);
    let digits = u64_to_decimal(hash_type_name(ty));
    let mut out = String::new();
    out.append(prefix);
    out.append(clean.as_str());
    out.append("_");
    out.append(digits.as_str());
    assert(out@ =~= registration_fn_name_spec(prefix@, ty@));
    out
}

/// The derives that the event macro adds: of `Debug`, `Clone`, `Serialize` and
/// `Deserialize`, in this order, the paths of those that the event does not derive.
pub open spec fn derives_to_add_spec(present: Seq<Seq<char>>) -> Seq<Seq<char>> {
    (if present.contains("Debug"@) { Seq::empty() } else { seq!["::core::fmt::Debug"@] })
        + (if present.contains("Clone"@) { Seq::empty() } else { seq!["::core::clone::Clone"@] })
        + (if present.contains("Serialize"@) { Seq::empty() } else { seq!["::serde::Serialize"@] })
        + (if present.contains("Deserialize"@) { Seq::empty() } else { seq!["::serde::Deserialize"@] })
}

fn contains_name(names: &Vec<String>, name: &str) -> (r: bool)
    ensures
        r == names@.map_values(|s: String| s@).contains(name@),
{
    let ghost v = names@.map_values(|s: String| s@);
    let mut i: usize = 0;
    while i < names.len()
        invariant
            i <= names@.len(),
            v == names@.map_values(|s: String| s@),
            forall|j: int| 0 <= j < i ==> v[j] != name@,
        decreases names@.len() - i,
    {
        if crate::text::str_eq(names[i].as_str(), name) {
            assert(v[i as int] == name@);
            return true;
        }
        i = i + 1;
    }
    false
}

/// The derives that the event macro adds: the paths of the required derives among
/// `Debug`, `Clone`, `Serialize`, `Deserialize` that the event's own derives do not name.
pub fn derives_to_add(present: &Vec<String>) -> (r: Vec<&'static str>)
    ensures
        r@.map_values(|s: &'static str| s@) == derives_to_add_spec(present@.map_values(|s: String| s@)),
{
    let ghost p = present@.map_values(|s: String| s@);
    let mut out: Vec<&'static str> = Vec::new();
    assert(out@.map_values(|s: &'static str| s@) =~= Seq::<Seq<char>>::empty());
    let has_debug = contains_name(present, "Debug");
    let has_clone = contains_name(present, "Clone");
    let has_ser = contains_name(present, "Serialize");
    let has_de = contains_name(present, "Deserialize");
    if !has_debug {
        out.push("::core::fmt::Debug");
    }
    if !has_clone {
        out.push("::core::clone::Clone");
    }
    if !has_ser {
        out.push("::serde::Serialize");
    }
    if !has_de {
        out.push("::serde::Deserialize");
    }
    assert(out@.map_values(|s: &'static str| s@) =~= derives_to_add_spec(p));
    out
}

/// The kinds of in-memory handlers the handler macros register.
#[derive(Clone, Copy, Debug, PartialEq, Eq, Structural)]
pub enum HandlerMacroKind {
    /// A handler that takes the event and its metadata.
    Plain,
    /// A handler that takes a context and the event.
    Context,
    /// A handler that takes a SeaORM transaction, the event and its metadata.
    Sea,
    /// A handler that takes a Postgres transaction, the event and its metadata.
    SqlxPostgres,
    /// A handler that takes a MySQL transaction, the event and its metadata.
    SqlxMySql,
}

/// What a handler macro makes of a function: the position of the event argument, or
/// the message of the error it reports. `typed[i]` tells whether argument `i` is a
/// typed argument (not `self`).
pub open spec fn check_handler_spec(kind: HandlerMacroKind, is_async: bool, typed: Seq<bool>) -> Result<int, Seq<char>> {
    if !is_async {
        Err("Issue: Handler must be an 'async' function.\nHow to fix: Add 'async' keyword before 'fn'."@)
    } else if kind == HandlerMacroKind::Context {
        if typed.len() != 2 {
            Err("Issue: Context Handler requires exactly 2 arguments.\nExpected: (ctx: &YourContext, event: &YourEvent)"@)
        } else if !typed[0] {
            Err("First argument must be a typed Context reference."@)
        } else if !typed[1] {
            Err("Second argument must be a typed Event reference."@)
        } else {
            Ok(1)
        }
    } else if kind == HandlerMacroKind::Plain {
        if typed.len() != 2 {
            Err("Issue: Standard Handler requires exactly 2 arguments.\nExpected: (event: &Event, meta: &BusMetadata)"@)
        } else if !typed[0] {
            Err("First argument must be a typed Event reference."@)
        } else {
            Ok(0)
        }
    } else {
        if typed.len() != 3 {
            Err("Issue: DB Handler requires exactly 3 arguments.\nExpected: (txn: &Tx, event: &Event, meta: &BusMetadata)"@)
        } else if !typed[1] {
            Err("Second argument must be a typed Event reference."@)
        } else {
            Ok(1)
        }
    }
}

/// Checks the signature of a function that a handler macro registers.
pub fn check_handler_signature(kind: HandlerMacroKind, is_async: bool, typed: &Vec<bool>) -> (r: Result<usize, String>)
    ensures
        r matches Ok(i) ==> check_handler_spec(kind, is_async, typed@) == Ok::<int, Seq<char>>(i as int),
        r matches Err(m) ==> check_handler_spec(kind, is_async, typed@) == Err::<int, Seq<char>>(m@),
{
    if !is_async {
        return Err(String::from_str("Issue: Handler must be an 'async' function.\nHow to fix: Add 'async' keyword before 'fn'."));
    }
    if kind == HandlerMacroKind::Context {
        if typed.len() != 2 {
            return Err(String::from_str("Issue: Context Handler requires exactly 2 arguments.\nExpected: (ctx: &YourContext, event: &YourEvent)"));
        }
        if !typed[0] {
            return Err(String::from_str("First argument must be a typed Context reference."));
        }
        if !typed[1] {
            return Err(String::from_str("Second argument must be a typed Event reference."));
        }
        Ok(1)
    } else if kind == HandlerMacroKind::Plain {
        if typed.len() != 2 {
            return Err(String::from_str("Issue: Standard Handler requires exactly 2 arguments.\nExpected: (event: &Event, meta: &BusMetadata)"));
        }
        if !typed[0] {
            return Err(String::from_str("First argument must be a typed Event reference."));
        }
        Ok(0)
    } else {
        if typed.len() != 3 {
            return Err(String::from_str("Issue: DB Handler requires exactly 3 arguments.\nExpected: (txn: &Tx, event: &Event, meta: &BusMetadata)"));
        }
        if !typed[1] {
            return Err(String::from_str("Second argument must be a typed Event reference."));
        }
        Ok(1)
    }
}

/// What the database handler macro makes of an impl block: the error it reports, if any.
/// `has_trait` tells whether the block implements a trait, `has_segment` whether the
/// trait's path has a last segment, `type_args` how many type arguments that segment has.
pub open spec fn check_database_handler_spec(has_trait: bool, has_segment: bool, type_args: nat) -> Option<Seq<char>> {
    if !has_trait {
        Some("Issue: This attribute must be applied to an 'impl IEventHandlerDatabase' block."@)
    } else if !has_segment {
        Some("Issue: Trait path is empty.\nHow to fix: Provide a valid trait implementation."@)
    } else if type_args != 1 {
        Some("Issue: Expected exactly one generic argument for IEventHandlerDatabase (the Event type).\nExpected: IEventHandlerDatabase<MyEvent>\nHow to fix: Check your trait implementation signature."@)
    } else {
        None
    }
}

/// Checks an impl block that the database handler macro registers.
pub fn check_database_handler(has_trait: bool, has_segment: bool, type_args: usize) -> (r: Option<String>)
    ensures
        r matches Some(m) ==> check_database_handler_spec(has_trait, has_segment, type_args as nat) == Some(m@),
        r is None ==> check_database_handler_spec(has_trait, has_segment, type_args as nat) is None,
{
    if !has_trait {
        return Some(String::from_str("Issue: This attribute must be applied to an 'impl IEventHandlerDatabase' block."));
    }
    if !has_segment {
        return Some(String::from_str("Issue: Trait path is empty.\nHow to fix: Provide a valid trait implementation."));
    }
    if type_args != 1 {
        return Some(String::from_str("Issue: Expected exactly one generic argument for IEventHandlerDatabase (the Event type).\nExpected: IEventHandlerDatabase<MyEvent>\nHow to fix: Check your trait implementation signature."));
    }
    None
}

/// How a request handler is made: by `Default`, or by its factory.
#[derive(Clone, Copy, Debug, PartialEq, Eq, Structural)]
pub enum HandlerMode {
    Default,
    Factory,
}

/// The mode that the request handler macro reads from its attribute: none gives
/// `Default`, the bare path `factory` gives `Factory`; anything else is refused with the
/// message the macro panics with.
pub fn parse_mode(attr_is_empty: bool, path_ident: Option<&str>) -> (r: Result<HandlerMode, String>)
    ensures
        attr_is_empty ==> r == Ok::<HandlerMode, String>(HandlerMode::Default),
        !attr_is_empty && (path_ident matches Some(p) && p@ == "factory"@) ==> r == Ok::<HandlerMode, String>(HandlerMode::Factory),
        !attr_is_empty && !(path_ident matches Some(p) && p@ == "factory"@) ==> (r matches Err(m)
            && m@ == "Expected #[RegisterRequestHandler] or #[RegisterRequestHandler(factory)]"@),
{
    if attr_is_empty {
        return Ok(HandlerMode::Default);
    }
    match path_ident {
        Some(p) => {
            if crate::text::str_eq(p, "factory") {
                Ok(HandlerMode::Factory)
            } else {
                Err(String::from_str("Expected #[RegisterRequestHandler] or #[RegisterRequestHandler(factory)]"))
            }
        },
        None => Err(String::from_str("Expected #[RegisterRequestHandler] or #[RegisterRequestHandler(factory)]")),
    }
}

} // verus!
