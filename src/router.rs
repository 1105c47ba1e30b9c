//! The role registry and the router that delivers messages by role.
use vstd::prelude::*;
use crate::coordination_message::{message_text, CoordinationMessage};
use crate::envelope::encode_message;
use crate::error::CommunicationError;
use crate::pane_role::{lemma_role_index, PaneRole};
use crate::text::{chars_of, lit_at, match_lit};
use crate::zellij_service::{PaneId, ZellijService};

verus! {

/// One pane of the host's inventory: its title, whether it is a plugin, and
/// its numeric id.
#[derive(Debug, Clone)]
pub struct PaneInfo {
    pub id: u32,
    pub is_plugin: bool,
    pub title: String,
}

/// The delivery target of a pane of the inventory.
pub open spec fn pane_endpoint(p: PaneInfo) -> PaneId {
    if p.is_plugin {
        PaneId::Plugin(p.id)
    } else {
        PaneId::Terminal(p.id)
    }
}

/// What `str::to_lowercase` returns for the characters `s`.
pub uninterp spec fn lower_of(s: Seq<char>) -> Seq<char>;

/// Relies on `str::to_lowercase`: the lower-case form, a function of the
/// characters alone.
#[verifier::external_body]
fn lowercase(s: &str) -> (r: String)
    ensures
        r@ == lower_of(s@),
{
    s.to_lowercase()
}

/// `n` occurs somewhere in `h`.
pub open spec fn has_text(h: Seq<char>, n: Seq<char>) -> bool {
    exists|i: int| lit_at(h, i, n)
}

/// The role whose keyword occurs in the (lower-case) pane name `s`, tried
/// in the fixed order overseer, commander, task list, review, editor.
pub open spec fn role_for_name(s: Seq<char>) -> Option<PaneRole> {
    if has_text(s, "overseer"@) {
        Some(PaneRole::Overseer)
    } else if has_text(s, "commander"@) {
        Some(PaneRole::Commander)
    } else if has_text(s, "task list"@) || has_text(s, "tasklist"@) || has_text(s, "task-list"@)
        || has_text(s, "task_list"@) {
        Some(PaneRole::TaskList)
    } else if has_text(s, "review"@) {
        Some(PaneRole::Review)
    } else if has_text(s, "editor"@) {
        Some(PaneRole::Editor)
    } else {
        None
    }
}

/// The registry that one discovery pass over `inv` builds: each pane whose
/// name names a role is registered in order, a later pane replacing an
/// earlier one of the same role.
pub open spec fn discovered(inv: Seq<PaneInfo>) -> Map<PaneRole, PaneId>
    decreases inv.len(),
{
    if inv.len() == 0 {
        Map::empty()
    } else {
        let m = discovered(inv.drop_last());
        match role_for_name(lower_of(inv.last().title@)) {
            Some(r) => m.insert(r, pane_endpoint(inv.last())),
            None => m,
        }
    }
}

/// The registry held in one slot per role.
pub open spec fn slots_map(s: Seq<Option<PaneId>>) -> Map<PaneRole, PaneId> {
    Map::new(|r: PaneRole| s[r.index()] is Some, |r: PaneRole| s[r.index()]->Some_0)
}

/// The writes that routing a message of text `text` to `roles` makes,
/// one for each registered role, in order.
pub open spec fn deliveries(text: Seq<char>, reg: Map<PaneRole, PaneId>, roles: Seq<PaneRole>) -> Seq<
    (Seq<char>, PaneId),
>
    decreases roles.len(),
{
    if roles.len() == 0 {
        Seq::empty()
    } else {
        let d = deliveries(text, reg, roles.drop_last());
        if reg.contains_key(roles.last()) {
            d.push((text, reg[roles.last()]))
        } else {
            d
        }
    }
}

/// The roles of a list of routing outcomes, in order.
pub open spec fn roles_of(r: Seq<(PaneRole, Result<(), CommunicationError>)>) -> Seq<PaneRole> {
    r.map_values(|p: (PaneRole, Result<(), CommunicationError>)| p.0)
}

/// How many of `roles` are registered.
pub open spec fn registered_count(reg: Map<PaneRole, PaneId>, roles: Seq<PaneRole>) -> nat
    decreases roles.len(),
{
    if roles.len() == 0 {
        0
    } else {
        registered_count(reg, roles.drop_last()) + if reg.contains_key(roles.last()) {
            1nat
        } else {
            0nat
        }
    }
}

/// The outcome of routing to one role.
pub open spec fn route_outcome(
    reg: Map<PaneRole, PaneId>,
    role: PaneRole,
    r: Result<(), CommunicationError>,
) -> bool {
    if reg.contains_key(role) {
        r is Ok
    } else {
        r == Err::<(), CommunicationError>(CommunicationError::PaneNotFound(role))
    }
}

/// Whether `n` occurs in `h`.
pub fn contains_text(h: &Vec<char>, n: &str) -> (r: bool)
    ensures
        r == has_text(h@, n@),
{
    let nc = chars_of(n);
    if nc.len() > h.len() {
        assert forall|i: int| !lit_at(h@, i, n@) by {}
        return false;
    }
    let last = h.len() - nc.len();
    let mut i: usize = 0;
    loop
        invariant
            i <= last,
            last == h@.len() - n@.len(),
            nc@ == n@,
            forall|j: int| 0 <= j < i ==> !lit_at(h@, j, n@),
        decreases last - i,
    {
        if match_lit(h, i, n) {
            return true;
        }
        if i == last {
            assert forall|j: int| !lit_at(h@, j, n@) by {
                if 0 <= j < i {
                }
            }
            return false;
        }
        i = i + 1;
    }
}

/// The role named by an already lower-cased pane name.
pub fn match_lowercased_name_to_role(name: &str) -> (r: Option<PaneRole>)
    ensures
        r == role_for_name(name@),
{
    let h = chars_of(name);
    if contains_text(&h, "overseer") {
        Some(PaneRole::Overseer)
    } else if contains_text(&h, "commander") {
        Some(PaneRole::Commander)
    } else if contains_text(&h, "task list") || contains_text(&h, "tasklist") || contains_text(
        &h,
        "task-list",
    ) || contains_text(&h, "task_list") {
        Some(PaneRole::TaskList)
    } else if contains_text(&h, "review") {
        Some(PaneRole::Review)
    } else if contains_text(&h, "editor") {
        Some(PaneRole::Editor)
    } else {
        None
    }
}

/// Routes coordination messages to the panes that hold each role.
pub struct MessageRouter<T: ZellijService> {
    /// The endpoint of each role, at the role's index.
    pane_registry: [Option<PaneId>; 5],
    zellij_service: T,
}

proof fn lemma_set_slot(s: Seq<Option<PaneId>>, r: PaneRole, v: Option<PaneId>)
    requires
        s.len() == 5,
    ensures
        slots_map(s.update(r.index(), v)) == (match v {
            Some(e) => slots_map(s).insert(r, e),
            None => slots_map(s).remove(r),
        }),
{
    lemma_role_index(r);
    let n = s.update(r.index(), v);
    assert forall|x: PaneRole| x.index() == r.index() implies x == r by {
        lemma_role_index(x);
    }
    match v {
        Some(e) => {
            assert(slots_map(n) =~= slots_map(s).insert(r, e));
        },
        None => {
            assert(slots_map(n) =~= slots_map(s).remove(r));
        },
    }
}

impl<T: ZellijService> MessageRouter<T> {
    /// The current role to endpoint mapping.
    pub closed spec fn registry(&self) -> Map<PaneRole, PaneId> {
        slots_map(self.pane_registry@)
    }

    /// The host primitives in use, as a value.
    pub closed spec fn service(&self) -> T {
        self.zellij_service
    }

    /// A router with an empty registry.
    pub fn new(zellij_service: T) -> (r: Self)
        ensures
            r.registry() == Map::<PaneRole, PaneId>::empty(),
            r.service() == zellij_service,
    {
        let r = MessageRouter {
            pane_registry: [None, None, None, None, None],
            zellij_service,
        };
        assert(r.registry() =~= Map::<PaneRole, PaneId>::empty());
        r
    }

    /// The host primitives in use.
    pub fn get_zellij_service(&self) -> (r: &T)
        ensures
            *r == self.service(),
    {
        &self.zellij_service
    }

    /// Registers `pane_id` for `role`, replacing any earlier endpoint.
    pub fn register_pane(&mut self, role: PaneRole, pane_id: PaneId)
        ensures
            final(self).registry() == old(self).registry().insert(role, pane_id),
            final(self).service() == old(self).service(),
    {
        proof {
            lemma_set_slot(self.pane_registry@, role, Some(pane_id));
        }
        let i = role.slot();
        self.pane_registry[i] = Some(pane_id);
    }

    /// The endpoint registered for `role`.
    pub fn get_pane_id(&self, role: &PaneRole) -> (r: Option<PaneId>)
        ensures
            r == (if self.registry().contains_key(*role) {
                Some(self.registry()[*role])
            } else {
                None
            }),
    {
        self.pane_registry[role.slot()]
    }

    /// Whether `role` has an endpoint.
    pub fn is_role_registered(&self, role: &PaneRole) -> (r: bool)
        ensures
            r == self.registry().contains_key(*role),
    {
        self.pane_registry[role.slot()].is_some()
    }

    /// The registered roles, each once, in the fixed role order.
    pub fn get_registered_roles(&self) -> (r: Vec<PaneRole>)
        ensures
            forall|x: PaneRole| r@.contains(x) <==> self.registry().contains_key(x),
            forall|i: int, j: int| 0 <= i < j < r@.len() ==> r@[i].index() < r@[j].index(),
    {
        let mut out: Vec<PaneRole> = Vec::new();
        let mut k: usize = 0;
        while k < 5
            invariant
                k <= 5,
                forall|x: PaneRole| #[trigger]
                    out@.contains(x) <==> (x.index() < k && self.registry().contains_key(x)),
                forall|i: int, j: int| 0 <= i < j < out@.len() ==> out@[i].index() < out@[j].index(),
                forall|i: int| 0 <= i < out@.len() ==> out@[i].index() < k,
            decreases 5 - k,
        {
            let role = PaneRole::from_slot(k);
            if self.pane_registry[k].is_some() {
                proof {
                    assert forall|x: PaneRole| #[trigger]
                        out@.push(role).contains(x) <==> (x.index() < k + 1
                            && self.registry().contains_key(x)) by {
                        lemma_role_index(x);
                        if x.index() == k {
                            assert(x == role);
                            assert(out@.push(role)[out@.len() as int] == role);
                        }
                        if out@.push(role).contains(x) && x != role {
                            let w = choose|w: int| 0 <= w < out@.push(role).len() && out@.push(role)[w] == x;
                            assert(out@.contains(x)) by {
                                assert(w < out@.len());
                                assert(out@[w] == x);
                            }
                        }
                        if out@.contains(x) {
                            let w = choose|w: int| 0 <= w < out@.len() && out@[w] == x;
                            assert(out@.push(role)[w] == x);
                        }
                    }
                }
                out.push(role);
            } else {
                proof {
                    assert forall|x: PaneRole| #[trigger]
                        out@.contains(x) <==> (x.index() < k + 1 && self.registry().contains_key(
                            x,
                        )) by {
                        lemma_role_index(x);
                        if x.index() == k {
                            assert(x == role);
                        }
                    }
                }
            }
            k = k + 1;
        }
        proof {
            assert forall|x: PaneRole| #[trigger] out@.contains(x) <==> self.registry().contains_key(
                x,
            ) by {
                lemma_role_index(x);
            }
        }
        out
    }

    /// The role named by a pane title: the title is lower-cased and searched
    /// for each role's keywords.
    pub fn match_pane_name_to_role(pane_name: &str) -> (r: Option<PaneRole>)
        ensures
            r == role_for_name(lower_of(pane_name@)),
    {
        let lowered = lowercase(pane_name);
        match_lowercased_name_to_role(lowered.as_str())
    }

    /// Rebuilds the registry from the host's pane inventory. Fails, leaving
    /// the registry empty, when no pane names a role.
    pub fn discover_panes_with_manifest(&mut self, panes: &Vec<PaneInfo>) -> (r: Result<
        (),
        CommunicationError,
    >)
        ensures
            final(self).registry() == discovered(panes@),
            r is Ok <==> !discovered(panes@).is_empty(),
            r matches Err(e) ==> e matches CommunicationError::PaneDiscoveryFailed(m) && m@
                == "No matching panes found in current layout"@,
            final(self).service() == old(self).service(),
    {
        self.pane_registry = [None, None, None, None, None];
        assert(self.registry() =~= Map::<PaneRole, PaneId>::empty());
        let mut found: bool = false;
        let mut k: usize = 0;
        while k < panes.len()
            invariant
                k <= panes@.len(),
                self.registry() == discovered(panes@.subrange(0, k as int)),
                found == !self.registry().is_empty(),
                self.service() == old(self).service(),
            decreases panes@.len() - k,
        {
            let p = &panes[k];
            let ghost before = self.registry();
            proof {
                let s = panes@.subrange(0, k + 1);
                assert(s.drop_last() =~= panes@.subrange(0, k as int));
                assert(s.last() == panes@[k as int]);
            }
            match Self::match_pane_name_to_role(p.title.as_str()) {
                Some(role) => {
                    let id = if p.is_plugin {
                        PaneId::Plugin(p.id)
                    } else {
                        PaneId::Terminal(p.id)
                    };
                    self.register_pane(role, id);
                    found = true;
                    assert(self.registry().contains_key(role));
                },
                None => {},
            }
            k = k + 1;
        }
        assert(panes@.subrange(0, panes@.len() as int) =~= panes@);
        if !found {
            return Err(
                CommunicationError::PaneDiscoveryFailed(
                    String::from_str("No matching panes found in current layout"),
                ),
            );
        }
        Ok(())
    }

    /// Writes the text of `message` to the pane that holds `target_role`.
    pub fn route_message_to_role(
        &mut self,
        message: &CoordinationMessage,
        target_role: PaneRole,
    ) -> (r: Result<(), CommunicationError>)
        ensures
            final(self).registry() == old(self).registry(),
            final(self).service().piped() == old(self).service().piped(),
            if old(self).registry().contains_key(target_role) {
                &&& r is Ok
                &&& final(self).service().written() == old(self).service().written().push(
                    (message_text(message@), old(self).registry()[target_role]),
                )
            } else {
                &&& r == Err::<(), CommunicationError>(CommunicationError::PaneNotFound(target_role))
                &&& final(self).service().written() == old(self).service().written()
            },
    {
        let pane_id = match self.get_pane_id(&target_role) {
            Some(p) => p,
            None => {
                return Err(CommunicationError::PaneNotFound(target_role));
            },
        };
        let message_json = encode_message(message);
        self.zellij_service.write_chars_to_pane_id(message_json.as_str(), pane_id);
        Ok(())
    }

    /// Writes `command` as it is to the pane that holds `target_role`.
    pub fn execute_command_in_role(&mut self, command: &str, target_role: PaneRole) -> (r: Result<
        (),
        CommunicationError,
    >)
        ensures
            final(self).registry() == old(self).registry(),
            final(self).service().piped() == old(self).service().piped(),
            if old(self).registry().contains_key(target_role) {
                &&& r is Ok
                &&& final(self).service().written() == old(self).service().written().push(
                    (command@, old(self).registry()[target_role]),
                )
            } else {
                &&& r == Err::<(), CommunicationError>(CommunicationError::PaneNotFound(target_role))
                &&& final(self).service().written() == old(self).service().written()
            },
    {
        let pane_id = match self.get_pane_id(&target_role) {
            Some(p) => p,
            None => {
                return Err(CommunicationError::PaneNotFound(target_role));
            },
        };
        self.zellij_service.write_chars_to_pane_id(command, pane_id);
        Ok(())
    }

    /// Routes `message` to each of `target_roles` in turn; a failure for one
    /// role does not stop the others. The outcomes follow the input order.
    pub fn route_message_to_roles(
        &mut self,
        message: &CoordinationMessage,
        target_roles: &[PaneRole],
    ) -> (r: Vec<(PaneRole, Result<(), CommunicationError>)>)
        ensures
            r@.len() == target_roles@.len(),
            forall|i: int|
                0 <= i < r@.len() ==> (#[trigger] r@[i]).0 == target_roles@[i] && route_outcome(
                    old(self).registry(),
                    target_roles@[i],
                    r@[i].1,
                ),
            final(self).registry() == old(self).registry(),
            final(self).service().written() == old(self).service().written() + deliveries(
                message_text(message@),
                old(self).registry(),
                target_roles@,
            ),
            final(self).service().written().len() == old(self).service().written().len() + registered_count(
                old(self).registry(),
                target_roles@,
            ),
            final(self).service().piped() == old(self).service().piped(),
    {
        let ghost text = message_text(message@);
        let ghost reg = self.registry();
        let mut out: Vec<(PaneRole, Result<(), CommunicationError>)> = Vec::new();
        let mut k: usize = 0;
        proof {
            lemma_deliveries_len(text, reg, target_roles@.subrange(0, 0));
            assert(deliveries(text, reg, target_roles@.subrange(0, 0)) =~= Seq::<
                (Seq<char>, PaneId),
            >::empty());
            assert(old(self).service().written() + Seq::<(Seq<char>, PaneId)>::empty() =~= old(
                self,
            ).service().written());
        }
        while k < target_roles.len()
            invariant
                k <= target_roles@.len(),
                out@.len() == k,
                forall|i: int|
                    0 <= i < k ==> #[trigger] out@[i].0 == target_roles@[i] && route_outcome(
                        reg,
                        target_roles@[i],
                        out@[i].1,
                    ),
                self.registry() == reg,
                self.service().piped() == old(self).service().piped(),
                text == message_text(message@),
                self.service().written() == old(self).service().written() + deliveries(
                    text,
                    reg,
                    target_roles@.subrange(0, k as int),
                ),
            decreases target_roles@.len() - k,
        {
            let role = target_roles[k];
            let ghost w0 = self.service().written();
            let result = self.route_message_to_role(message, role);
            proof {
                let s = target_roles@.subrange(0, k + 1);
                assert(s.drop_last() =~= target_roles@.subrange(0, k as int));
                assert(s.last() == role);
                if reg.contains_key(role) {
                    assert(self.service().written() =~= old(self).service().written() + deliveries(text, reg, s));
                } else {
                    assert(self.service().written() =~= old(self).service().written() + deliveries(text, reg, s));
                }
            }
            out.push((role, result));
            k = k + 1;
        }
        proof {
            assert(target_roles@.subrange(0, target_roles@.len() as int) =~= target_roles@);
            lemma_deliveries_len(text, reg, target_roles@);
            assert forall|i: int| 0 <= i < out@.len() implies (#[trigger] out@[i]).0
                == target_roles@[i] && route_outcome(old(self).registry(), target_roles@[i], out@[i].1) by {
                assert(out@[i].0 == target_roles@[i]);
                assert(route_outcome(reg, target_roles@[i], out@[i].1));
            }
        }
        out
    }

    /// Routes `message` to every registered role.
    pub fn broadcast_to_all(&mut self, message: &CoordinationMessage) -> (r: Vec<
        (PaneRole, Result<(), CommunicationError>),
    >)
        ensures
            forall|x: PaneRole|
                old(self).registry().contains_key(x) <==> exists|i: int|
                    0 <= i < r@.len() && #[trigger] r@[i].0 == x,
            forall|i: int| 0 <= i < r@.len() ==> (#[trigger] r@[i].1) is Ok,
            forall|i: int, j: int| 0 <= i < j < r@.len() ==> r@[i].0 != r@[j].0,
            final(self).registry() == old(self).registry(),
            final(self).service().written() == old(self).service().written() + deliveries(
                message_text(message@),
                old(self).registry(),
                roles_of(r@),
            ),
            final(self).service().written().len() == old(self).service().written().len() + r@.len(),
            final(self).service().piped() == old(self).service().piped(),
    {
        let all_roles = self.get_registered_roles();
        let ghost reg = self.registry();
        let r = self.route_message_to_roles(message, all_roles.as_slice());
        proof {
            assert forall|i: int| 0 <= i < all_roles@.len() implies reg.contains_key(
                #[trigger] all_roles@[i],
            ) by {
                assert(all_roles@.contains(all_roles@[i]));
            }
            lemma_all_registered(reg, all_roles@);
            assert forall|x: PaneRole| reg.contains_key(x) implies exists|i: int|
                0 <= i < r@.len() && #[trigger] r@[i].0 == x by {
                assert(all_roles@.contains(x));
                let i = choose|i: int| 0 <= i < all_roles@.len() && all_roles@[i] == x;
                assert(r@[i].0 == x);
            }
            assert(roles_of(r@) =~= all_roles@);
            assert forall|i: int, j: int| 0 <= i < j < r@.len() implies r@[i].0 != r@[j].0 by {
                assert(r@[i].0 == all_roles@[i] && r@[j].0 == all_roles@[j]);
            }
            assert forall|i: int| 0 <= i < r@.len() implies (#[trigger] r@[i].1) is Ok by {
                assert(r@[i].0 == all_roles@[i]);
                assert(all_roles@.contains(all_roles@[i]));
            }
        }
        r
    }
}

proof fn lemma_deliveries_len(text: Seq<char>, reg: Map<PaneRole, PaneId>, roles: Seq<PaneRole>)
    ensures
        deliveries(text, reg, roles).len() == registered_count(reg, roles),
    decreases roles.len(),
{
    if roles.len() > 0 {
        lemma_deliveries_len(text, reg, roles.drop_last());
    }
}

proof fn lemma_all_registered(reg: Map<PaneRole, PaneId>, roles: Seq<PaneRole>)
    requires
        forall|i: int| 0 <= i < roles.len() ==> reg.contains_key(#[trigger] roles[i]),
    ensures
        registered_count(reg, roles) == roles.len(),
    decreases roles.len(),
{
    if roles.len() > 0 {
        assert forall|i: int| 0 <= i < roles.drop_last().len() implies reg.contains_key(
            #[trigger] roles.drop_last()[i],
        ) by {
            assert(roles.drop_last()[i] == roles[i]);
        }
        lemma_all_registered(reg, roles.drop_last());
    }
}

/// The registered roles among `roles`.
pub open spec fn registered_among(reg: Map<PaneRole, PaneId>, roles: Seq<PaneRole>) -> Set<PaneRole> {
    roles.to_set().filter(|x: PaneRole| reg.contains_key(x))
}

/// A fan-out over roles that are each asked for once makes one write per
/// registered role asked for, whatever the order of the roles.
pub proof fn law_fan_out_count(reg: Map<PaneRole, PaneId>, roles: Seq<PaneRole>)
    requires
        roles.no_duplicates(),
    ensures
        registered_count(reg, roles) == registered_among(reg, roles).len(),
    decreases roles.len(),
{
    broadcast use vstd::seq_lib::seq_to_set_is_finite;

    if roles.len() == 0 {
        assert(registered_among(reg, roles) =~= Set::<PaneRole>::empty());
    } else {
        let a = roles.drop_last();
        let x = roles.last();
        assert(a.no_duplicates()) by {
            assert forall|i: int, j: int| 0 <= i < a.len() && 0 <= j < a.len() && i != j implies a[i]
                != a[j] by {
                assert(a[i] == roles[i] && a[j] == roles[j]);
            }
        }
        law_fan_out_count(reg, a);
        assert(roles.to_set() =~= a.to_set().insert(x)) by {
            assert forall|y: PaneRole| roles.to_set().contains(y) implies a.to_set().insert(x).contains(
                y,
            ) by {
                let i = choose|i: int| 0 <= i < roles.len() && roles[i] == y;
                if i < roles.len() - 1 {
                    assert(a[i] == y);
                }
            }
            assert forall|y: PaneRole| a.to_set().insert(x).contains(y) implies roles.to_set().contains(
                y,
            ) by {
                if y != x {
                    let i = choose|i: int| 0 <= i < a.len() && a[i] == y;
                    assert(roles[i] == y);
                } else {
                    assert(roles[roles.len() - 1] == x);
                }
            }
        }
        assert(!a.to_set().contains(x)) by {
            if a.to_set().contains(x) {
                let i = choose|i: int| 0 <= i < a.len() && a[i] == x;
                assert(roles[i] == roles[roles.len() - 1]);
            }
        }
        let f = |y: PaneRole| reg.contains_key(y);
        a.to_set().lemma_len_filter(f);
        if reg.contains_key(x) {
            assert(registered_among(reg, roles) =~= registered_among(reg, a).insert(x));
        } else {
            assert(registered_among(reg, roles) =~= registered_among(reg, a));
        }
    }
}

} // verus!
