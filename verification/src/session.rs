use vstd::prelude::*;

verus! {

/// One call into the opaque platform session service. The platform
/// itself (context creation, client identifiers, input focus) is an
/// external collaborator; the store only decides which call comes next
/// and records what each one yielded.
#[derive(Clone, Copy, PartialEq, Eq, Debug, Structural)]
pub enum PlatformAction {
    /// Create the platform's per-thread manager.
    CreateThreadManager,
    /// Create the logical document manager.
    CreateDocumentManager,
    /// Activate the thread manager; yields the client identifier.
    Activate,
    /// Construct the text store object the context will be bound to.
    CreateTextStore,
    /// Create a context bound to the store, under the given client
    /// identifier; yields the edit cookie.
    CreateContext { client_id: u32 },
    /// Push the context to establish it on the document manager.
    PushContext,
    /// Look the system function provider up.
    GetFunctionProvider,
    /// Look the optional reconversion capability up on the provider.
    GetReconversion,
    /// Give the document manager the input focus.
    SetFocus,
}

/// The platform session lifecycle around the store: which handles have
/// been acquired so far, and the identifiers the platform assigned.
///
/// Initialization is an ordered sequence of platform calls; the driver
/// asks [`TSF::next_action`] what to do, performs the call, and records
/// success with [`TSF::step_succeeded`]. A failed call is simply not
/// recorded: the state then names exactly the handles acquired before
/// the failure, and [`TSF::uninitialize`] releases only those.
pub struct TSF {
    pub thread_mgr: bool,
    pub doc_mgr: bool,
    pub activated: bool,
    pub text_store: bool,
    pub context: bool,
    pub pushed: bool,
    pub func_prov: bool,
    pub reconvert: bool,
    pub focused: bool,
    pub client_id: u32,
    pub edit_cookie: u32,
}

impl TSF {
    /// The handles form a prefix of the initialization order: nothing is
    /// ever acquired before everything preceding it.
    pub open spec fn wf(&self) -> bool {
        &&& self.doc_mgr ==> self.thread_mgr
        &&& self.activated ==> self.doc_mgr
        &&& self.text_store ==> self.activated
        &&& self.context ==> self.text_store
        &&& self.pushed ==> self.context
        &&& self.func_prov ==> self.pushed
        &&& self.reconvert ==> self.func_prov
        &&& self.focused ==> self.reconvert
    }

    /// The next platform call the initialization sequence asks for, or
    /// None once every step has succeeded.
    pub open spec fn spec_next_action(&self) -> Option<PlatformAction> {
        if !self.thread_mgr {
            Some(PlatformAction::CreateThreadManager)
        } else if !self.doc_mgr {
            Some(PlatformAction::CreateDocumentManager)
        } else if !self.activated {
            Some(PlatformAction::Activate)
        } else if !self.text_store {
            Some(PlatformAction::CreateTextStore)
        } else if !self.context {
            Some(PlatformAction::CreateContext { client_id: self.client_id })
        } else if !self.pushed {
            Some(PlatformAction::PushContext)
        } else if !self.func_prov {
            Some(PlatformAction::GetFunctionProvider)
        } else if !self.reconvert {
            Some(PlatformAction::GetReconversion)
        } else if !self.focused {
            Some(PlatformAction::SetFocus)
        } else {
            None
        }
    }

    /// Whether every initialization step has succeeded.
    pub open spec fn spec_initialized(&self) -> bool {
        self.spec_next_action() is None
    }

    /// A fresh lifecycle: no handle held, no identifiers assigned.
    pub fn new() -> (tsf: TSF)
        ensures
            (tsf == TSF {
                thread_mgr: false,
                doc_mgr: false,
                activated: false,
                text_store: false,
                context: false,
                pushed: false,
                func_prov: false,
                reconvert: false,
                focused: false,
                client_id: 0,
                edit_cookie: 0,
            }),
            tsf.wf(),
    {
        TSF {
            thread_mgr: false,
            doc_mgr: false,
            activated: false,
            text_store: false,
            context: false,
            pushed: false,
            func_prov: false,
            reconvert: false,
            focused: false,
            client_id: 0,
            edit_cookie: 0,
        }
    }

    /// The next platform call to perform, or None once initialized.
    pub fn next_action(&self) -> (action: Option<PlatformAction>)
        ensures
            action == self.spec_next_action(),
    {
        if !self.thread_mgr {
            Some(PlatformAction::CreateThreadManager)
        } else if !self.doc_mgr {
            Some(PlatformAction::CreateDocumentManager)
        } else if !self.activated {
            Some(PlatformAction::Activate)
        } else if !self.text_store {
            Some(PlatformAction::CreateTextStore)
        } else if !self.context {
            Some(PlatformAction::CreateContext { client_id: self.client_id })
        } else if !self.pushed {
            Some(PlatformAction::PushContext)
        } else if !self.func_prov {
            Some(PlatformAction::GetFunctionProvider)
        } else if !self.reconvert {
            Some(PlatformAction::GetReconversion)
        } else if !self.focused {
            Some(PlatformAction::SetFocus)
        } else {
            None
        }
    }

    /// Whether every initialization step has succeeded.
    pub fn is_initialized(&self) -> (initialized: bool)
        ensures
            initialized == self.spec_initialized(),
    {
        self.thread_mgr && self.doc_mgr && self.activated && self.text_store && self.context
            && self.pushed && self.func_prov && self.reconvert && self.focused
    }

    /// Records that the pending platform call succeeded. `value` is what
    /// the call yielded: the client identifier for `Activate`, the edit
    /// cookie for `CreateContext`, and ignored for every other step.
    pub fn step_succeeded(&mut self, value: u32)
        requires
            old(self).spec_next_action() is Some,
        ensures
            old(self).wf() ==> final(self).wf(),
            ({
                let done = old(self).spec_next_action().unwrap();
                match done {
                    PlatformAction::CreateThreadManager => *final(self) == TSF {
                        thread_mgr: true,
                        ..*old(self)
                    },
                    PlatformAction::CreateDocumentManager => *final(self) == TSF {
                        doc_mgr: true,
                        ..*old(self)
                    },
                    PlatformAction::Activate => *final(self) == TSF {
                        activated: true,
                        client_id: value,
                        ..*old(self)
                    },
                    PlatformAction::CreateTextStore => *final(self) == TSF {
                        text_store: true,
                        ..*old(self)
                    },
                    PlatformAction::CreateContext { .. } => *final(self) == TSF {
                        context: true,
                        edit_cookie: value,
                        ..*old(self)
                    },
                    PlatformAction::PushContext => *final(self) == TSF {
                        pushed: true,
                        ..*old(self)
                    },
                    PlatformAction::GetFunctionProvider => *final(self) == TSF {
                        func_prov: true,
                        ..*old(self)
                    },
                    PlatformAction::GetReconversion => *final(self) == TSF {
                        reconvert: true,
                        ..*old(self)
                    },
                    PlatformAction::SetFocus => *final(self) == TSF {
                        focused: true,
                        ..*old(self)
                    },
                }
            }),
    {
        if !self.thread_mgr {
            self.thread_mgr = true;
        } else if !self.doc_mgr {
            self.doc_mgr = true;
        } else if !self.activated {
            self.activated = true;
            self.client_id = value;
        } else if !self.text_store {
            self.text_store = true;
        } else if !self.context {
            self.context = true;
            self.edit_cookie = value;
        } else if !self.pushed {
            self.pushed = true;
        } else if !self.func_prov {
            self.func_prov = true;
        } else if !self.reconvert {
            self.reconvert = true;
        } else {
            self.focused = true;
        }
    }

    /// Releases everything acquired so far, in the reverse of the order
    /// it came, and resets the edit cookie; says whether the platform's
    /// thread manager must still be deactivated by the driver. The
    /// client identifier the platform assigned is kept, as an identifier
    /// and not a handle.
    pub fn uninitialize(&mut self) -> (deactivate: bool)
        ensures
            deactivate == old(self).thread_mgr,
            (*final(self) == TSF {
                thread_mgr: false,
                doc_mgr: false,
                activated: false,
                text_store: false,
                context: false,
                pushed: false,
                func_prov: false,
                reconvert: false,
                focused: false,
                client_id: old(self).client_id,
                edit_cookie: 0,
            }),
            final(self).wf(),
    {
        let deactivate = self.thread_mgr;
        self.focused = false;
        self.reconvert = false;
        self.func_prov = false;
        self.pushed = false;
        self.edit_cookie = 0;
        self.context = false;
        self.text_store = false;
        self.activated = false;
        self.doc_mgr = false;
        self.thread_mgr = false;
        deactivate
    }
}

} // verus!
