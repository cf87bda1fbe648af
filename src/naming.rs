use vstd::prelude::*;

verus! {

/// Relies on `OsRng::try_fill_bytes` (rand_core, as `rand::rngs::OsRng`):
/// four bytes from the operating system's random source, or `None` where
/// that source fails; it reports the failure instead of panicking. Nothing
/// is known of which value comes back.
#[verifier::external_body]
fn draw_id() -> (r: Option<u32>) {
    let mut bytes = [0u8; 4];
    match rand::RngCore::try_fill_bytes(&mut rand::rngs::OsRng, &mut bytes) {
        Ok(()) => Some(u32::from_ne_bytes(bytes)),
        Err(_) => None,
    }
}

/// The kinds of named kernel objects, each with its own name space.
#[derive(Clone, Copy, Debug, PartialEq, Eq, Structural)]
pub enum ObjectKind {
    Mutex,
    Event,
}

/// The ASCII decimal digits of `n`, most significant first.
pub open spec fn decimal(n: nat) -> Seq<u8>
    decreases n,
{
    if n < 10 {
        seq![(48 + n) as u8]
    } else {
        decimal(n / 10).push((48 + n % 10) as u8)
    }
}

/// The ASCII prefix of the names of objects of kind `kind`.
pub open spec fn prefix_of(kind: ObjectKind) -> Seq<u8> {
    match kind {
        // "mutex_"
        ObjectKind::Mutex => seq![109u8, 117u8, 116u8, 101u8, 120u8, 95u8],
        // "event_"
        ObjectKind::Event => seq![101u8, 118u8, 101u8, 110u8, 116u8, 95u8],
    }
}

/// The name of the object of kind `kind` whose identifier is `id`.
pub open spec fn name_of(kind: ObjectKind, id: u32) -> Seq<u8> {
    prefix_of(kind) + decimal(id as nat)
}

proof fn lemma_decimal_digits(n: nat)
    ensures
        forall|i: int| 0 <= i < decimal(n).len() ==> 48 <= #[trigger] decimal(n)[i] <= 57,
    decreases n,
{
    if n >= 10 {
        lemma_decimal_digits(n / 10);
        let d = decimal(n / 10);
        assert forall|i: int| 0 <= i < decimal(n).len() implies 48 <= #[trigger] decimal(n)[i]
            <= 57 by {
            if i < d.len() {
                assert(decimal(n)[i] == d[i]);
            }
        }
    }
}

/// Appends the decimal digits of `n` to `out`.
fn push_decimal(out: &mut Vec<u8>, n: u32)
    ensures
        final(out)@ == old(out)@ + decimal(n as nat),
    decreases n,
{
    if n >= 10 {
        push_decimal(out, n / 10);
    }
    out.push((48 + n % 10) as u8);
    assert(out@ =~= old(out)@ + decimal(n as nat));
}

/// Returns the name, as ASCII bytes, of the object of kind `kind` whose
/// identifier is `id`; it never holds a zero byte.
pub fn object_name(kind: ObjectKind, id: u32) -> (r: Vec<u8>)
    ensures
        r@ == name_of(kind, id),
        forall|i: int| 0 <= i < r@.len() ==> r@[i] != 0,
{
    let mut out: Vec<u8> = match kind {
        ObjectKind::Mutex => vec![109u8, 117u8, 116u8, 101u8, 120u8, 95u8],
        ObjectKind::Event => vec![101u8, 118u8, 101u8, 110u8, 116u8, 95u8],
    };
    assert(out@ =~= prefix_of(kind));
    push_decimal(&mut out, id);
    proof {
        lemma_decimal_digits(id as nat);
        assert forall|i: int| 0 <= i < out@.len() implies out@[i] != 0 by {
            if i >= 6 {
                assert(out@[i] == decimal(id as nat)[i - 6]);
            }
        }
    }
    out
}

/// Draws a random identifier for a new object of kind `kind` and returns it
/// with the object's name, or `None` where the random source failed; the
/// caller retries with a new draw while the name is taken.
pub fn candidate_name(kind: ObjectKind) -> (r: Option<(u32, Vec<u8>)>)
    ensures
        r matches Some((id, name)) ==> name@ == name_of(kind, id),
{
    match draw_id() {
        Some(id) => Some((id, object_name(kind, id))),
        None => None,
    }
}

/// The OS error left by a create call that opened an existing object of the
/// same name instead of creating one.
pub const ERROR_ALREADY_EXISTS: u32 = 183;

/// The outcome of an attempt to create a named object under a drawn name.
#[derive(Clone, Copy, Debug, PartialEq, Eq, Structural)]
pub enum Creation {
    /// A new object was created: keep it and store its identifier.
    Created,
    /// The name was taken and the call opened the existing object: close
    /// that handle and draw again.
    Collided,
    /// No handle came back: draw again.
    Failed,
}

/// The outcome of a create call that returned a handle (`got_handle`) or not,
/// leaving `last_error` as the thread's last OS error.
pub open spec fn creation_spec(got_handle: bool, last_error: u32) -> Creation {
    if !got_handle {
        Creation::Failed
    } else if last_error == ERROR_ALREADY_EXISTS {
        Creation::Collided
    } else {
        Creation::Created
    }
}

/// Classifies the outcome of an attempt to create a named object, so that
/// creation is retried until a name that no existing object holds is found.
pub fn creation_outcome(got_handle: bool, last_error: u32) -> (r: Creation)
    ensures
        r == creation_spec(got_handle, last_error),
{
    if !got_handle {
        Creation::Failed
    } else if last_error == ERROR_ALREADY_EXISTS {
        Creation::Collided
    } else {
        Creation::Created
    }
}

} // verus!
