use vstd::prelude::*;

verus! {

/// The bytes of the log extension's identifier, without the terminating nul.
pub open spec fn log_identifier() -> Seq<u8> {
    seq![99u8, 108, 97, 112, 46, 108, 111, 103]
}

/// The bytes of the GUI extension's identifier, without the terminating nul.
pub open spec fn gui_identifier() -> Seq<u8> {
    seq![99u8, 108, 97, 112, 46, 103, 117, 105]
}

/// The extensions this library knows by identifier.
#[derive(Clone, Copy, PartialEq, Eq, Hash, Debug, Structural)]
pub enum KnownExtension {
    /// `clap.log`: the host's log sink.
    Log,
    /// `clap.gui`: the plugin's window and the host's window requests.
    Gui,
}

/// The identifier bytes of each known extension.
pub open spec fn identifier_of(ext: KnownExtension) -> Seq<u8> {
    match ext {
        KnownExtension::Log => log_identifier(),
        KnownExtension::Gui => gui_identifier(),
    }
}

/// Whether two byte strings are equal, compared byte for byte.
fn bytes_equal(a: &[u8], b: &[u8]) -> (r: bool)
    ensures
        r == (a@ == b@),
{
    if a.len() != b.len() {
        return false;
    }
    let mut i: usize = 0;
    while i < a.len()
        invariant
            a@.len() == b@.len(),
            i <= a@.len(),
            forall|j: int| 0 <= j < i ==> a@[j] == b@[j],
        decreases a@.len() - i,
    {
        if a[i] != b[i] {
            return false;
        }
        i = i + 1;
    }
    assert(a@ == b@);
    true
}

impl KnownExtension {
    /// The identifier of this extension, without the terminating nul.
    pub fn identifier(&self) -> (r: Vec<u8>)
        ensures
            r@ == identifier_of(*self),
    {
        match self {
            KnownExtension::Log => vec![99u8, 108, 97, 112, 46, 108, 111, 103],
            KnownExtension::Gui => vec![99u8, 108, 97, 112, 46, 103, 117, 105],
        }
    }

    /// The known extension an identifier names, by exact byte comparison; `None` for
    /// any other identifier, on every query.
    pub fn lookup(id: &[u8]) -> (r: Option<KnownExtension>)
        ensures
            r matches Some(ext) ==> id@ == identifier_of(ext),
            r is None <==> (id@ != log_identifier() && id@ != gui_identifier()),
    {
        let log = KnownExtension::Log.identifier();
        if bytes_equal(id, log.as_slice()) {
            return Some(KnownExtension::Log);
        }
        let gui = KnownExtension::Gui.identifier();
        if bytes_equal(id, gui.as_slice()) {
            return Some(KnownExtension::Gui);
        }
        None
    }
}

/// The two identifiers differ, so an identifier names at most one extension.
pub proof fn lemma_identifiers_distinct()
    ensures
        log_identifier() != gui_identifier(),
{
    assert(log_identifier()[5] != gui_identifier()[5]);
}

} // verus!
