//! Installing a plugin package: a package that asks for high-risk
//! permissions waits for the user's confirmation before it is installed.
use vstd::prelude::*;

verus! {

/// A package waiting for the user to confirm its high-risk permissions.
#[derive(Clone, Debug)]
pub struct PendingPluginInstall<M> {
    pub manifest: M,
    pub high_risk_permissions: Vec<String>,
}

/// What happens next with a package that was read.
#[derive(Debug)]
pub enum InstallStep<M> {
    /// The prompt listing the high-risk permissions is shown.
    AwaitConfirmation,
    /// The package is installed now (with the confirmation flag given).
    Install { manifest: M, high_risk_confirmed: bool },
}

/// The plugin install prompt and its error line.
#[derive(Debug)]
pub struct PluginInstallFlow<M> {
    pub pending: Option<PendingPluginInstall<M>>,
    pub error: Option<String>,
}

impl<M> PluginInstallFlow<M> {
    /// No prompt and no error.
    pub fn new() -> (flow: Self)
        ensures
            flow.pending is None,
            flow.error is None,
    {
        PluginInstallFlow { pending: None, error: None }
    }

    /// A package was read: one with high-risk permissions that the user has
    /// not confirmed waits in the prompt; any other is installed now.
    pub fn install_manifest(
        &mut self,
        manifest: M,
        high_risk_permissions: Vec<String>,
        high_risk_confirmed: bool,
    ) -> (step: InstallStep<M>)
        ensures
            step == install_step_spec(manifest, high_risk_permissions@.len() > 0, high_risk_confirmed),
            !high_risk_confirmed && high_risk_permissions@.len() > 0 ==> step is AwaitConfirmation
                && final(self).pending == (Some(PendingPluginInstall { manifest, high_risk_permissions }))
                && final(self).error is None,
            high_risk_confirmed || high_risk_permissions@.len() == 0 ==> (step == (InstallStep::Install {
                manifest,
                high_risk_confirmed,
            })) && final(self).pending == old(self).pending && final(self).error == old(self).error,
    {
        if !high_risk_confirmed && high_risk_permissions.len() > 0 {
            self.pending = Some(PendingPluginInstall { manifest, high_risk_permissions });
            self.error = None;
            return InstallStep::AwaitConfirmation;
        }
        InstallStep::Install { manifest, high_risk_confirmed }
    }

    /// The install finished: an error is shown, or the prompt goes away.
    pub fn finish_install(&mut self, result: Result<(), String>)
        ensures
            match result {
                Ok(()) => final(self).error is None && final(self).pending is None,
                Err(e) => final(self).error == Some(e) && final(self).pending == old(self).pending,
            },
    {
        match result {
            Ok(()) => {
                self.error = None;
                self.pending = None;
            },
            Err(error) => {
                self.error = Some(error);
            },
        }
    }

    /// The package could not be read: the error is shown and no prompt stays.
    pub fn package_failed(&mut self, error: String)
        ensures
            final(self).error == Some(error),
            final(self).pending is None,
    {
        self.error = Some(error);
        self.pending = None;
    }

    /// The user confirmed the prompt: the waiting package, if any, is to be
    /// installed with its high-risk permissions confirmed.
    pub fn confirm(&mut self) -> (manifest: Option<M>)
        ensures
            final(self).pending is None,
            final(self).error == old(self).error,
            match old(self).pending {
                Some(p) => manifest == Some(p.manifest),
                None => manifest is None,
            },
    {
        match self.pending.take() {
            Some(pending) => Some(pending.manifest),
            None => None,
        }
    }

    /// The user dismissed the prompt.
    pub fn cancel(&mut self)
        ensures
            final(self).pending is None,
            final(self).error == old(self).error,
    {
        self.pending = None;
    }
}

/// The installation step chosen for a package.
pub open spec fn install_step_spec<M>(manifest: M, risky: bool, confirmed: bool) -> InstallStep<M> {
    if !confirmed && risky {
        InstallStep::AwaitConfirmation
    } else {
        InstallStep::Install { manifest, high_risk_confirmed: confirmed }
    }
}

/// A package with high-risk permissions is never installed unconfirmed:
/// either it waits in the prompt, or it is installed with the confirmation.
pub proof fn lemma_risky_installs_are_confirmed<M>(manifest: M, risky: bool, confirmed: bool)
    ensures
        install_step_spec(manifest, risky, confirmed) matches InstallStep::Install { high_risk_confirmed, .. }
            ==> (!risky || high_risk_confirmed),
{
}

} // verus!
