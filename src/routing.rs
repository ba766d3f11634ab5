use vstd::prelude::*;
use crate::ids::ModuleId;
use crate::packet::Packet;

verus! {

/// Why a module refused a callback.
#[derive(Clone, Debug, PartialEq, Eq)]
pub struct ModuleError {
    pub reason: String,
}

/// What a module returns on receiving a packet: an optional acknowledgement
/// and an optional write that the handler applies only once the whole
/// receive has succeeded.
#[derive(Clone, Debug)]
pub struct RecvOutcome {
    pub ack: Option<Vec<u8>>,
    pub deferred_write: Option<Vec<u8>>,
}

/// An application-defined acknowledgement.
pub trait Acknowledgement {
    /// Whether the acknowledgement reports success.
    fn success(&self) -> bool;

    /// The acknowledgement's bytes as written to chain state.
    fn to_bytes(&self) -> Vec<u8>;
}

/// The callbacks that an application receives from the packet handler.
/// Every callback but `on_chan_open_try` accepts by default.
///
/// `on_recv_packet` returns no `Result`: a module that cannot process a
/// packet reports it inside the acknowledgement, since the packet must be
/// marked received all the same.
pub trait Module {
    fn on_chan_open_init(
        &mut self,
        connection_hops: &Vec<String>,
        port_id: &str,
        channel_id: &str,
        counterparty_port_id: &str,
        version: &str,
    ) -> Result<(), ModuleError> {
        Ok(())
    }

    /// Returns the version that the application agrees to use.
    fn on_chan_open_try(
        &mut self,
        connection_hops: &Vec<String>,
        port_id: &str,
        channel_id: &str,
        counterparty_port_id: &str,
        counterparty_version: &str,
    ) -> Result<String, ModuleError>;

    fn on_chan_open_ack(
        &mut self,
        port_id: &str,
        channel_id: &str,
        counterparty_version: &str,
    ) -> Result<(), ModuleError> {
        Ok(())
    }

    fn on_chan_open_confirm(&mut self, port_id: &str, channel_id: &str) -> Result<(), ModuleError> {
        Ok(())
    }

    fn on_chan_close_init(&mut self, port_id: &str, channel_id: &str) -> Result<(), ModuleError> {
        Ok(())
    }

    fn on_chan_close_confirm(&mut self, port_id: &str, channel_id: &str) -> Result<
        (),
        ModuleError,
    > {
        Ok(())
    }

    fn on_recv_packet(&self, packet: &Packet, relayer: &str) -> RecvOutcome {
        RecvOutcome { ack: None, deferred_write: None }
    }

    fn on_acknowledgement_packet(
        &mut self,
        packet: &Packet,
        acknowledgement: &Vec<u8>,
        relayer: &str,
    ) -> Result<(), ModuleError> {
        Ok(())
    }

    fn on_timeout_packet(&mut self, packet: &Packet, relayer: &str) -> Result<(), ModuleError> {
        Ok(())
    }

    /// Applies a write deferred by `on_recv_packet`.
    fn apply_deferred_write(&mut self, write: &Vec<u8>) {
    }
}

/// The error of registering a module identifier twice.
#[derive(Clone, Debug, PartialEq, Eq)]
pub struct DuplicateRoute {
    pub module_id: ModuleId,
}

/// Builds a router. Routes can be added only here: a built router has no
/// method that adds one.
pub trait RouterBuilder: Sized {
    type Module: Module;

    type Router: Router<Module = Self::Module>;

    /// The builder's internal invariant.
    spec fn wf(&self) -> bool;

    spec fn route_ids(&self) -> Set<Seq<char>>;

    /// The module registered under `id`; meaningful for registered ids.
    spec fn route(&self, id: Seq<char>) -> Self::Module;

    /// Registers `module` under `module_id`; fails if the identifier is taken.
    fn add_route(self, module_id: ModuleId, module: Self::Module) -> (r: Result<
        Self,
        DuplicateRoute,
    >)
        requires
            self.wf(),
        ensures
            r matches Ok(b) ==> b.wf(),
            r is Err <==> self.route_ids().contains(module_id@),
            r matches Ok(b) ==> b.route_ids() == self.route_ids().insert(module_id@),
            r matches Ok(b) ==> b.route(module_id@) == module,
            r matches Ok(b) ==> forall|k: Seq<char>|
                #![trigger b.route(k)]
                self.route_ids().contains(k) ==> b.route(k) == self.route(k),
            r matches Err(e) ==> e.module_id@ == module_id@,
    ;

    /// Consumes the builder and returns the router as configured.
    fn build(self) -> (r: Self::Router)
        requires
            self.wf(),
        ensures
            r.wf(),
            r.route_ids() == self.route_ids(),
            forall|k: Seq<char>| #![trigger r.route(k)] self.route_ids().contains(k) ==> r.route(k) == self.route(k),
    ;
}

/// A mapping from module identifiers to modules, fixed once built.
pub trait Router: Sized {
    type Module: Module;

    /// The router's internal invariant.
    spec fn wf(&self) -> bool;

    spec fn route_ids(&self) -> Set<Seq<char>>;

    /// The module registered under `id`; meaningful for registered ids.
    spec fn route(&self, id: Seq<char>) -> Self::Module;

    /// The module registered under `module_id`, if any.
    fn get_route_mut(&mut self, module_id: &ModuleId) -> (r: Option<&mut Self::Module>)
        requires
            old(self).wf(),
        ensures
            final(self).wf(),
            r is Some <==> old(self).route_ids().contains(module_id@),
            r is None ==> *final(self) == *old(self),
            r is Some ==> *r->Some_0 == old(self).route(module_id@),
            r is Some ==> final(self).route(module_id@) == *final(r->Some_0),
            forall|k: Seq<char>|
                #![trigger final(self).route(k)]
                k != module_id@ && old(self).route_ids().contains(k) ==> final(self).route(k) == old(self).route(k),
            final(self).route_ids() == old(self).route_ids(),
    ;

    /// Whether a module is registered under `module_id`.
    fn has_route(&self, module_id: &ModuleId) -> (r: bool)
        requires
            self.wf(),
        ensures
            r == self.route_ids().contains(module_id@),
    ;
}

/// Identifiers in `s` are pairwise distinct.
pub open spec fn distinct_ids(s: Seq<ModuleId>) -> bool {
    forall|i: int, j: int| 0 <= i < j < s.len() ==> #[trigger] s[i]@ != #[trigger] s[j]@
}

pub open spec fn ids_of(s: Seq<ModuleId>) -> Set<Seq<char>> {
    Set::new(|k: Seq<char>| exists|i: int| 0 <= i < s.len() && #[trigger] s[i]@ == k)
}

/// A position of `k` in `ids`; the only one where ids are distinct.
pub open spec fn index_of(ids: Seq<ModuleId>, k: Seq<char>) -> int {
    choose|i: int| 0 <= i < ids.len() && #[trigger] ids[i]@ == k
}

/// Position of `id` in `ids`, if it is there.
fn find_route(ids: &Vec<ModuleId>, id: &ModuleId) -> (r: Option<usize>)
    ensures
        r is None <==> !ids_of(ids@).contains(id@),
        r matches Some(i) ==> i < ids@.len() && ids@[i as int]@ == id@,
{
    let mut i: usize = 0;
    while i < ids.len()
        invariant
            i <= ids@.len(),
            forall|j: int| 0 <= j < i ==> #[trigger] ids@[j]@ != id@,
        decreases ids@.len() - i,
    {
        if ids[i] == *id {
            return Some(i);
        }
        i = i + 1;
    }
    None
}

/// A router builder that keeps its routes in two parallel vectors.
pub struct ModuleRouterBuilder<M> {
    ids: Vec<ModuleId>,
    modules: Vec<M>,
}

/// The router that `ModuleRouterBuilder` builds.
pub struct ModuleRouter<M> {
    ids: Vec<ModuleId>,
    modules: Vec<M>,
}

impl<M: Module> ModuleRouterBuilder<M> {
    /// A builder with no routes.
    pub fn new() -> (r: Self)
        ensures
            r.wf(),
            r.route_ids() == Set::<Seq<char>>::empty(),
    {
        let r = ModuleRouterBuilder { ids: Vec::new(), modules: Vec::new() };
        assert(ids_of(r.ids@) =~= Set::<Seq<char>>::empty());
        r
    }
}

impl<M: Module> RouterBuilder for ModuleRouterBuilder<M> {
    type Module = M;

    type Router = ModuleRouter<M>;

    closed spec fn wf(&self) -> bool {
        distinct_ids(self.ids@) && self.ids@.len() == self.modules@.len()
    }

    closed spec fn route_ids(&self) -> Set<Seq<char>> {
        ids_of(self.ids@)
    }

    closed spec fn route(&self, id: Seq<char>) -> M {
        self.modules@[index_of(self.ids@, id)]
    }

    fn add_route(self, module_id: ModuleId, module: M) -> (r: Result<Self, DuplicateRoute>) {
        match find_route(&self.ids, &module_id) {
            Some(_) => Err(DuplicateRoute { module_id }),
            None => {
                let ghost old_ids = self.ids@;
                let ModuleRouterBuilder { mut ids, mut modules } = self;
                ids.push(module_id);
                modules.push(module);
                assert(ids_of(ids@) =~= ids_of(old_ids).insert(ids@[old_ids.len() as int]@)) by {
                    assert forall|k: Seq<char>| ids_of(ids@).contains(k) implies ids_of(
                        old_ids,
                    ).insert(ids@[old_ids.len() as int]@).contains(k) by {
                        let i = choose|i: int| 0 <= i < ids@.len() && #[trigger] ids@[i]@ == k;
                        if i < old_ids.len() {
                            assert(old_ids[i]@ == k);
                        }
                    }
                    assert forall|k: Seq<char>| ids_of(old_ids).contains(k) implies ids_of(
                        ids@,
                    ).contains(k) by {
                        let i = choose|i: int| 0 <= i < old_ids.len() && #[trigger] old_ids[i]@ == k;
                        assert(ids@[i]@ == k);
                    }
                    assert(ids@[old_ids.len() as int]@ == ids@[old_ids.len() as int]@);
                }
                let ghost old_modules = modules@.drop_last();
                assert forall|k: Seq<char>| #[trigger] ids_of(old_ids).contains(k) implies modules@[index_of(
                    ids@,
                    k,
                )] == old_modules[index_of(old_ids, k)] by {
                    let i = index_of(old_ids, k);
                    assert(ids@[i]@ == k);
                    let j = index_of(ids@, k);
                    assert(0 <= j < ids@.len() && ids@[j]@ == k);
                    if j == old_ids.len() {
                        assert(!ids_of(old_ids).contains(ids@[j]@));
                    }
                    assert(old_ids[j]@ == k);
                }
                Ok(ModuleRouterBuilder { ids, modules })
            },
        }
    }

    fn build(self) -> (r: ModuleRouter<M>) {
        ModuleRouter { ids: self.ids, modules: self.modules }
    }
}

impl<M: Module> ModuleRouter<M> {
    /// The module registered under `module_id`, if any, for reading.
    pub fn get_route(&self, module_id: &ModuleId) -> (r: Option<&M>)
        requires
            self.wf(),
        ensures
            r is Some <==> self.route_ids().contains(module_id@),
            r matches Some(m) ==> *m == self.route(module_id@),
    {
        match find_route(&self.ids, module_id) {
            Some(i) => if i < self.modules.len() {
                Some(&self.modules[i])
            } else {
                None
            },
            None => None,
        }
    }
}

impl<M: Module> Router for ModuleRouter<M> {
    type Module = M;

    closed spec fn wf(&self) -> bool {
        distinct_ids(self.ids@) && self.ids@.len() == self.modules@.len()
    }

    closed spec fn route_ids(&self) -> Set<Seq<char>> {
        ids_of(self.ids@)
    }

    closed spec fn route(&self, id: Seq<char>) -> M {
        self.modules@[index_of(self.ids@, id)]
    }

    fn get_route_mut(&mut self, module_id: &ModuleId) -> (r: Option<&mut M>) {
        match find_route(&self.ids, module_id) {
            Some(i) => if i < self.modules.len() {
                Some(&mut self.modules[i])
            } else {
                None
            },
            None => None,
        }
    }

    fn has_route(&self, module_id: &ModuleId) -> (r: bool) {
        find_route(&self.ids, module_id).is_some()
    }
}

} // verus!
