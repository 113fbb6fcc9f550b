//! The register and unregister operations as whole transitions, and the laws
//! that hold of them.
//!
//! The host drives each operation step by step (see `manager`).  The spec
//! functions here say what one whole call does — what it returns, what text
//! it leaves stored, and what it leaves registered with the OS subsystem —
//! as a function of the outcomes the OS-side steps report.  An outcome is
//! `Ok(())`, or `Err` with the detail the subsystem gave; a step the call
//! never reaches is ignored.

use vstd::prelude::*;

use crate::error::invalid_format_message;
use crate::error::register_failed_message;
use crate::error::remove_handler_message;
use crate::error::unregister_failed_message;
use crate::manager::shortcut_parse;

verus! {

/// What one whole register call of `s` returns: success, or the message of
/// the first failing step.  `install` is the outcome of installing the
/// press/release handler, `os` that of registering the descriptor.
pub open spec fn register_outcome(
    s: Seq<char>,
    install: Result<(), Seq<char>>,
    os: Result<(), Seq<char>>,
) -> Result<(), Seq<char>> {
    if shortcut_parse(s) is Err {
        Err(invalid_format_message(shortcut_parse(s)->Err_0))
    } else if install is Err {
        Err(register_failed_message(install->Err_0))
    } else if os is Err {
        Err(register_failed_message(os->Err_0))
    } else {
        Ok(())
    }
}

/// The stored text after one whole register call: the new text exactly when
/// the call succeeded, otherwise whatever was stored before — also after a
/// rejection, although the old OS-level registration is already cleaned up
/// by then.
pub open spec fn register_stored_after(
    stored: Option<Seq<char>>,
    s: Seq<char>,
    install: Result<(), Seq<char>>,
    os: Result<(), Seq<char>>,
) -> Option<Seq<char>> {
    if register_outcome(s, install, os) is Ok {
        Some(s)
    } else {
        stored
    }
}

/// The set of texts this component holds registered with the OS after one
/// whole register call, assuming the host performs each OS action the call
/// decides on.  `cleanup_effective` says whether the best-effort removal of
/// the old registration took effect; its failure is swallowed, so both
/// values are possible outcomes.
pub open spec fn register_os_after(
    os_table: Set<Seq<char>>,
    stored: Option<Seq<char>>,
    s: Seq<char>,
    cleanup_effective: bool,
    install: Result<(), Seq<char>>,
    os: Result<(), Seq<char>>,
) -> Set<Seq<char>> {
    let cleaned = if stored matches Some(prev) && shortcut_parse(prev) is Ok
        && cleanup_effective {
        os_table.remove(stored->0)
    } else {
        os_table
    };
    if register_outcome(s, install, os) is Ok {
        cleaned.insert(s)
    } else {
        cleaned
    }
}

/// What one whole unregister call returns: a no-op success when nothing is
/// stored or the stored text no longer parses; otherwise success exactly
/// when removing the handler (`remove`) and unregistering (`unreg`) both
/// succeeded, and the first failing step's message otherwise.
pub open spec fn unregister_outcome(
    stored: Option<Seq<char>>,
    remove: Result<(), Seq<char>>,
    unreg: Result<(), Seq<char>>,
) -> Result<(), Seq<char>> {
    match stored {
        None => Ok(()),
        Some(s) => if shortcut_parse(s) is Err {
            Ok(())
        } else if remove is Err {
            Err(remove_handler_message(remove->Err_0))
        } else if unreg is Err {
            Err(unregister_failed_message(unreg->Err_0))
        } else {
            Ok(())
        },
    }
}

/// The stored text after one whole unregister call: cleared exactly when a
/// parseable text was stored and both OS steps succeeded; an unparseable
/// text is left exactly as stored.
pub open spec fn unregister_stored_after(
    stored: Option<Seq<char>>,
    remove: Result<(), Seq<char>>,
    unreg: Result<(), Seq<char>>,
) -> Option<Seq<char>> {
    match stored {
        None => None,
        Some(s) => if shortcut_parse(s) is Ok && remove is Ok && unreg is Ok {
            None
        } else {
            stored
        },
    }
}

/// The set of texts this component holds registered with the OS after one
/// whole unregister call.
pub open spec fn unregister_os_after(
    os_table: Set<Seq<char>>,
    stored: Option<Seq<char>>,
    remove: Result<(), Seq<char>>,
    unreg: Result<(), Seq<char>>,
) -> Set<Seq<char>> {
    match stored {
        None => os_table,
        Some(s) => if shortcut_parse(s) is Ok && remove is Ok && unreg is Ok {
            os_table.remove(s)
        } else {
            os_table
        },
    }
}

/// The sync the manager maintains toward the OS subsystem: everything it
/// holds registered is the one stored text, and that text parses — so it
/// never holds two registrations at once.
pub open spec fn in_sync(stored: Option<Seq<char>>, os_table: Set<Seq<char>>) -> bool {
    forall|t: Seq<char>| os_table.contains(t)
        ==> stored == Some(t) && #[trigger] shortcut_parse(t) is Ok
}

/// For every text the parser accepts, a register call in which both OS
/// steps succeed succeeds as a whole and stores that text — so a following
/// query returns it.
pub proof fn lemma_register_then_query(stored: Option<Seq<char>>, s: Seq<char>)
    requires
        shortcut_parse(s) is Ok,
    ensures
        register_outcome(s, Ok(()), Ok(())) is Ok,
        register_stored_after(stored, s, Ok(()), Ok(())) == Some(s),
{
}

/// Unregistering when no shortcut is active succeeds, and the stored text
/// stays `None` — whatever the never-consulted step outcomes would be.
pub proof fn lemma_unregister_idle(remove: Result<(), Seq<char>>, unreg: Result<(), Seq<char>>)
    ensures
        unregister_outcome(None, remove, unreg) is Ok,
        unregister_stored_after(None, remove, unreg) is None,
{
}

/// Registering `s1` and then `s2`, both calls fully successful from an
/// empty start, leaves exactly one shortcut registered with the OS — `s2` —
/// and `s2` as the stored text.  The second call's best-effort cleanup is
/// taken to be effective: the OS removing a registration it does hold.
pub proof fn lemma_reregister_leaves_one(s1: Seq<char>, s2: Seq<char>)
    requires
        shortcut_parse(s1) is Ok,
        shortcut_parse(s2) is Ok,
    ensures
        ({
            let stored1 = register_stored_after(None, s1, Ok(()), Ok(()));
            register_stored_after(stored1, s2, Ok(()), Ok(())) == Some(s2)
        }),
        ({
            let stored1 = register_stored_after(None, s1, Ok(()), Ok(()));
            let table1 = register_os_after(Set::empty(), None, s1, true, Ok(()), Ok(()));
            let table2 = register_os_after(table1, stored1, s2, true, Ok(()), Ok(()));
            table2 == Set::empty().insert(s2) && table2.len() == 1
        }),
{
    let table1 = register_os_after(Set::empty(), None, s1, true, Ok(()), Ok(()));
    assert(table1 =~= Set::empty().insert(s1));
    let stored1 = register_stored_after(None, s1, Ok(()), Ok(()));
    let table2 = register_os_after(table1, stored1, s2, true, Ok(()), Ok(()));
    assert(table2 =~= Set::empty().insert(s2));
}

/// A text the parser rejects makes the register call fail, with a message
/// that starts with the fixed prefix, and an empty state stays empty: no
/// `Some` value appears.
pub proof fn lemma_register_invalid(
    s: Seq<char>,
    install: Result<(), Seq<char>>,
    os: Result<(), Seq<char>>,
)
    requires
        shortcut_parse(s) is Err,
    ensures
        register_outcome(s, install, os) is Err,
        register_outcome(s, install, os)->Err_0.take("Invalid shortcut format:"@.len() as int)
            == "Invalid shortcut format:"@,
        register_stored_after(None, s, install, os) is None,
{
    crate::error::lemma_invalid_format_prefix(shortcut_parse(s)->Err_0);
}

/// A register call either leaves the stored text unchanged, or — only when
/// the whole call succeeded — stores exactly the text that was registered;
/// an unregister call either leaves it unchanged or clears it.  However
/// complete calls interleave, no caller can ever observe a text that was
/// not successfully registered.
pub proof fn lemma_stored_only_registered(
    stored: Option<Seq<char>>,
    s: Seq<char>,
    install: Result<(), Seq<char>>,
    os: Result<(), Seq<char>>,
    remove: Result<(), Seq<char>>,
    unreg: Result<(), Seq<char>>,
)
    ensures
        register_stored_after(stored, s, install, os) == stored
            || (register_outcome(s, install, os) is Ok
                && register_stored_after(stored, s, install, os) == Some(s)),
        unregister_stored_after(stored, remove, unreg) == stored
            || unregister_stored_after(stored, remove, unreg) is None,
{
}

/// Both operations keep the stored text and the OS table in sync — in
/// particular, the component never holds more than one OS registration —
/// provided the best-effort cleanup the register operation asks for takes
/// effect.
pub proof fn lemma_operations_keep_sync(
    stored: Option<Seq<char>>,
    os_table: Set<Seq<char>>,
    s: Seq<char>,
    install: Result<(), Seq<char>>,
    os: Result<(), Seq<char>>,
    remove: Result<(), Seq<char>>,
    unreg: Result<(), Seq<char>>,
)
    requires
        in_sync(stored, os_table),
    ensures
        in_sync(
            register_stored_after(stored, s, install, os),
            register_os_after(os_table, stored, s, true, install, os),
        ),
        in_sync(
            unregister_stored_after(stored, remove, unreg),
            unregister_os_after(os_table, stored, remove, unreg),
        ),
{
}

} // verus!
