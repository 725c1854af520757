//! The prover worker's builder and request handle.

use vstd::prelude::*;

verus! {

/// Why assembling the prover worker failed.
#[derive(Debug)]
pub enum ProverError {
    /// A dependency the worker needs was not supplied; names which.
    MissingDependency(&'static str),
}

/// Everything the proof orchestrator is assembled from: the prover context,
/// the ASM and Moho remote hosts, the orchestrator configuration, the input
/// builder and the ASM worker's commit subscription that drives it.
pub struct ProverWorkerParts<C, H, G, B, S> {
    pub ctx: C,
    pub asm_host: H,
    pub moho_host: H,
    pub config: G,
    pub input_builder: B,
    pub subscription: S,
}

/// Builder for assembling a prover worker.
///
/// Wires the context (`C`), remote hosts (`H`), configuration (`G`), input
/// builder (`B`) and the ASM worker's commit subscription (`S`) together. The
/// orchestrator is not spawned here: the caller drives it.
pub struct ProverWorkerBuilder<C, H, G, B, S> {
    ctx: Option<C>,
    asm_host: Option<H>,
    moho_host: Option<H>,
    config: Option<G>,
    input_builder: Option<B>,
    subscription: Option<S>,
}

impl<C, H, G, B, S> ProverWorkerBuilder<C, H, G, B, S> {
    /// The prover context, if set.
    pub closed spec fn spec_ctx(&self) -> Option<C> {
        self.ctx
    }

    /// The ASM remote host, if set.
    pub closed spec fn spec_asm_host(&self) -> Option<H> {
        self.asm_host
    }

    /// The Moho remote host, if set.
    pub closed spec fn spec_moho_host(&self) -> Option<H> {
        self.moho_host
    }

    /// The orchestrator configuration, if set.
    pub closed spec fn spec_config(&self) -> Option<G> {
        self.config
    }

    /// The input builder, if set.
    pub closed spec fn spec_input_builder(&self) -> Option<B> {
        self.input_builder
    }

    /// The block subscription, if set.
    pub closed spec fn spec_subscription(&self) -> Option<S> {
        self.subscription
    }

    /// What [`Self::build`] returns for this builder: the first missing
    /// dependency, in the order context, ASM host, Moho host, configuration,
    /// input builder, subscription, or every part when none is missing.
    pub open spec fn spec_build(&self) -> Result<ProverWorkerParts<C, H, G, B, S>, ProverError> {
        match (self.spec_ctx(), self.spec_asm_host(), self.spec_moho_host()) {
            (None, _, _) => Err(ProverError::MissingDependency("context")),
            (_, None, _) => Err(ProverError::MissingDependency("asm_host")),
            (_, _, None) => Err(ProverError::MissingDependency("moho_host")),
            (Some(ctx), Some(asm_host), Some(moho_host)) => match (
                self.spec_config(),
                self.spec_input_builder(),
                self.spec_subscription(),
            ) {
                (None, _, _) => Err(ProverError::MissingDependency("config")),
                (_, None, _) => Err(ProverError::MissingDependency("input_builder")),
                (_, _, None) => Err(ProverError::MissingDependency("subscription")),
                (Some(config), Some(input_builder), Some(subscription)) => Ok(
                    ProverWorkerParts { ctx, asm_host, moho_host, config, input_builder, subscription },
                ),
            },
        }
    }

    /// The order in which dependencies were supplied does not matter: two
    /// builders holding the same dependencies build alike. (Each setter
    /// changes only its own dependency, so supplying the same dependencies in
    /// any order yields builders that hold the same ones.)
    pub proof fn lemma_build_ignores_setter_order(b1: Self, b2: Self)
        requires
            b1.spec_ctx() == b2.spec_ctx(),
            b1.spec_asm_host() == b2.spec_asm_host(),
            b1.spec_moho_host() == b2.spec_moho_host(),
            b1.spec_config() == b2.spec_config(),
            b1.spec_input_builder() == b2.spec_input_builder(),
            b1.spec_subscription() == b2.spec_subscription(),
        ensures
            b1.spec_build() == b2.spec_build(),
    {
    }

    /// Creates a new, empty builder.
    pub fn new() -> (b: Self)
        ensures
            b.spec_ctx() is None,
            b.spec_asm_host() is None,
            b.spec_moho_host() is None,
            b.spec_config() is None,
            b.spec_input_builder() is None,
            b.spec_subscription() is None,
    {
        ProverWorkerBuilder {
            ctx: None,
            asm_host: None,
            moho_host: None,
            config: None,
            input_builder: None,
            subscription: None,
        }
    }

    /// Sets the prover context.
    pub fn with_context(self, ctx: C) -> (b: Self)
        ensures
            b.spec_ctx() == Some(ctx),
            b.spec_asm_host() == self.spec_asm_host(),
            b.spec_moho_host() == self.spec_moho_host(),
            b.spec_config() == self.spec_config(),
            b.spec_input_builder() == self.spec_input_builder(),
            b.spec_subscription() == self.spec_subscription(),
    {
        let mut b = self;
        b.ctx = Some(ctx);
        b
    }

    /// Sets the `(asm, moho)` remote host pair.
    pub fn with_hosts(self, asm_host: H, moho_host: H) -> (b: Self)
        ensures
            b.spec_ctx() == self.spec_ctx(),
            b.spec_asm_host() == Some(asm_host),
            b.spec_moho_host() == Some(moho_host),
            b.spec_config() == self.spec_config(),
            b.spec_input_builder() == self.spec_input_builder(),
            b.spec_subscription() == self.spec_subscription(),
    {
        let mut b = self;
        b.asm_host = Some(asm_host);
        b.moho_host = Some(moho_host);
        b
    }

    /// Sets the orchestrator configuration.
    pub fn with_config(self, config: G) -> (b: Self)
        ensures
            b.spec_ctx() == self.spec_ctx(),
            b.spec_asm_host() == self.spec_asm_host(),
            b.spec_moho_host() == self.spec_moho_host(),
            b.spec_config() == Some(config),
            b.spec_input_builder() == self.spec_input_builder(),
            b.spec_subscription() == self.spec_subscription(),
    {
        let mut b = self;
        b.config = Some(config);
        b
    }

    /// Sets the input builder used to assemble ZkVM inputs.
    pub fn with_input_builder(self, input_builder: B) -> (b: Self)
        ensures
            b.spec_ctx() == self.spec_ctx(),
            b.spec_asm_host() == self.spec_asm_host(),
            b.spec_moho_host() == self.spec_moho_host(),
            b.spec_config() == self.spec_config(),
            b.spec_input_builder() == Some(input_builder),
            b.spec_subscription() == self.spec_subscription(),
    {
        let mut b = self;
        b.input_builder = Some(input_builder);
        b
    }

    /// Sets the ASM worker commit subscription that drives the orchestrator.
    ///
    /// Subscribe before the ASM worker starts processing blocks: a block
    /// committed before the subscription exists is not seen.
    pub fn with_block_subscription(self, subscription: S) -> (b: Self)
        ensures
            b.spec_ctx() == self.spec_ctx(),
            b.spec_asm_host() == self.spec_asm_host(),
            b.spec_moho_host() == self.spec_moho_host(),
            b.spec_config() == self.spec_config(),
            b.spec_input_builder() == self.spec_input_builder(),
            b.spec_subscription() == Some(subscription),
    {
        let mut b = self;
        b.subscription = Some(subscription);
        b
    }

    /// Validates the supplied dependencies and hands them over for assembling
    /// the orchestrator. Fails naming the first missing dependency, in the
    /// order context, ASM host, Moho host, configuration, input builder,
    /// subscription.
    pub fn build(self) -> (r: Result<ProverWorkerParts<C, H, G, B, S>, ProverError>)
        ensures
            r == self.spec_build(),
            self.spec_ctx() is None ==> r == Err::<ProverWorkerParts<C, H, G, B, S>, ProverError>(
                ProverError::MissingDependency("context"),
            ),
            self.spec_ctx() is Some && self.spec_asm_host() is None ==> r == Err::<
                ProverWorkerParts<C, H, G, B, S>,
                ProverError,
            >(ProverError::MissingDependency("asm_host")),
            self.spec_ctx() is Some && self.spec_asm_host() is Some && self.spec_moho_host() is None
                ==> r == Err::<ProverWorkerParts<C, H, G, B, S>, ProverError>(
                ProverError::MissingDependency("moho_host"),
            ),
            self.spec_ctx() is Some && self.spec_asm_host() is Some && self.spec_moho_host() is Some
                && self.spec_config() is None ==> r == Err::<
                ProverWorkerParts<C, H, G, B, S>,
                ProverError,
            >(ProverError::MissingDependency("config")),
            self.spec_ctx() is Some && self.spec_asm_host() is Some && self.spec_moho_host() is Some
                && self.spec_config() is Some && self.spec_input_builder() is None ==> r == Err::<
                ProverWorkerParts<C, H, G, B, S>,
                ProverError,
            >(ProverError::MissingDependency("input_builder")),
            self.spec_ctx() is Some && self.spec_asm_host() is Some && self.spec_moho_host() is Some
                && self.spec_config() is Some && self.spec_input_builder() is Some
                && self.spec_subscription() is None ==> r == Err::<
                ProverWorkerParts<C, H, G, B, S>,
                ProverError,
            >(ProverError::MissingDependency("subscription")),
            r is Ok <==> {
                &&& self.spec_ctx() is Some
                &&& self.spec_asm_host() is Some
                &&& self.spec_moho_host() is Some
                &&& self.spec_config() is Some
                &&& self.spec_input_builder() is Some
                &&& self.spec_subscription() is Some
            },
            r matches Ok(parts) ==> {
                &&& self.spec_ctx() == Some(parts.ctx)
                &&& self.spec_asm_host() == Some(parts.asm_host)
                &&& self.spec_moho_host() == Some(parts.moho_host)
                &&& self.spec_config() == Some(parts.config)
                &&& self.spec_input_builder() == Some(parts.input_builder)
                &&& self.spec_subscription() == Some(parts.subscription)
            },
    {
        let ctx = match self.ctx {
            Some(c) => c,
            None => return Err(ProverError::MissingDependency("context")),
        };
        let asm_host = match self.asm_host {
            Some(h) => h,
            None => return Err(ProverError::MissingDependency("asm_host")),
        };
        let moho_host = match self.moho_host {
            Some(h) => h,
            None => return Err(ProverError::MissingDependency("moho_host")),
        };
        let config = match self.config {
            Some(g) => g,
            None => return Err(ProverError::MissingDependency("config")),
        };
        let input_builder = match self.input_builder {
            Some(b) => b,
            None => return Err(ProverError::MissingDependency("input_builder")),
        };
        let subscription = match self.subscription {
            Some(s) => s,
            None => return Err(ProverError::MissingDependency("subscription")),
        };
        Ok(ProverWorkerParts { ctx, asm_host, moho_host, config, input_builder, subscription })
    }
}

impl<C, H, G, B, S> Default for ProverWorkerBuilder<C, H, G, B, S> {
    /// An empty builder.
    fn default() -> (b: Self)
        ensures
            b.spec_ctx() is None,
            b.spec_asm_host() is None,
            b.spec_moho_host() is None,
            b.spec_config() is None,
            b.spec_input_builder() is None,
            b.spec_subscription() is None,
    {
        Self::new()
    }
}

} // verus!
