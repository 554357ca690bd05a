use vstd::prelude::*;

verus! {

/// The ledger-level publishing policy. It is itself ledger state: genesis
/// materializes it into the data store, and the admission checks read it from
/// there rather than from any harness-side flag.
///
/// - `Open`: any account may publish modules, any script may run.
/// - `CustomScripts`: any script may run, but only the root account may
///   publish modules.
/// - `Locked`: only the whitelisted script blobs may run, and only the root
///   account may publish modules.
#[derive(Clone, Debug)]
pub enum VMPublishingOption {
    Open,
    CustomScripts,
    Locked(Vec<Vec<u8>>),
}

/// The views of a whitelist's script blobs, element by element.
pub open spec fn bytes_views(s: Seq<Vec<u8>>) -> Seq<Seq<u8>> {
    s.map_values(|v: Vec<u8>| v@)
}

pub enum PolicyView {
    Open,
    CustomScripts,
    Locked(Seq<Seq<u8>>),
}

impl View for VMPublishingOption {
    type V = PolicyView;

    open spec fn view(&self) -> PolicyView {
        match self {
            VMPublishingOption::Open => PolicyView::Open,
            VMPublishingOption::CustomScripts => PolicyView::CustomScripts,
            VMPublishingOption::Locked(allowed) => PolicyView::Locked(bytes_views(allowed@)),
        }
    }
}

impl VMPublishingOption {
    pub fn open() -> (p: VMPublishingOption)
        ensures
            p@ == PolicyView::Open,
    {
        VMPublishingOption::Open
    }

    pub fn custom_scripts() -> (p: VMPublishingOption)
        ensures
            p@ == PolicyView::CustomScripts,
    {
        VMPublishingOption::CustomScripts
    }

    pub fn locked(allowed: Vec<Vec<u8>>) -> (p: VMPublishingOption)
        ensures
            p@ == PolicyView::Locked(bytes_views(allowed@)),
    {
        VMPublishingOption::Locked(allowed)
    }
}

} // verus!
