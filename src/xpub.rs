use vstd::prelude::*;

use crate::entity::EntityEvents;
use crate::primitives::{AccountId, XPubId};

verus! {

/// An extended public key: its text form and the fingerprint that identifies it.
pub struct XPub {
    pub text: String,
    pub fingerprint: u32,
}

impl XPub {
    pub fn id(&self) -> (r: XPubId)
        ensures
            r.0 == self.fingerprint as u128,
    {
        XPubId(self.fingerprint as u128)
    }
}

/// An xpub imported into an account under a name.
pub struct AccountXPub {
    pub account_id: AccountId,
    pub key_name: String,
    pub value: XPub,
}

/// An xpub about to be imported.
pub struct NewXPub {
    pub account_id: AccountId,
    pub key_name: String,
    pub value: XPub,
}

/// Why a `NewXPub` could not be built: the field that was not set.
#[derive(PartialEq, Eq, Structural, Clone, Copy, Debug)]
pub enum NewXPubBuilderError {
    MissingAccountId,
    MissingKeyName,
    MissingValue,
}

/// Collects the fields of a `NewXPub`.
pub struct NewXPubBuilder {
    pub account_id: Option<AccountId>,
    pub key_name: Option<String>,
    pub value: Option<XPub>,
}

impl NewXPubBuilder {
    pub fn account_id(self, account_id: AccountId) -> (r: Self)
        ensures
            r.account_id == Some(account_id),
            r.key_name == self.key_name,
            r.value == self.value,
    {
        NewXPubBuilder { account_id: Some(account_id), ..self }
    }

    pub fn key_name(self, key_name: String) -> (r: Self)
        ensures
            r.key_name == Some(key_name),
            r.account_id == self.account_id,
            r.value == self.value,
    {
        NewXPubBuilder { key_name: Some(key_name), ..self }
    }

    pub fn value(self, value: XPub) -> (r: Self)
        ensures
            r.value == Some(value),
            r.account_id == self.account_id,
            r.key_name == self.key_name,
    {
        NewXPubBuilder { value: Some(value), ..self }
    }

    /// The xpub, or the first field not set.
    pub fn build(self) -> (r: Result<NewXPub, NewXPubBuilderError>)
        ensures
            self.account_id.is_none() ==> r == Err::<NewXPub, NewXPubBuilderError>(NewXPubBuilderError::MissingAccountId),
            self.account_id.is_some() && self.key_name.is_none() ==> r == Err::<NewXPub, NewXPubBuilderError>(
                NewXPubBuilderError::MissingKeyName,
            ),
            self.account_id.is_some() && self.key_name.is_some() && self.value.is_none() ==> r == Err::<
                NewXPub,
                NewXPubBuilderError,
            >(NewXPubBuilderError::MissingValue),
            r matches Ok(x) ==> Some(x.account_id) == self.account_id && Some(x.key_name) == self.key_name && Some(
                x.value,
            ) == self.value,
            (self.account_id.is_some() && self.key_name.is_some() && self.value.is_some()) == r.is_ok(),
    {
        let account_id = match self.account_id {
            Some(v) => v,
            None => return Err(NewXPubBuilderError::MissingAccountId),
        };
        let key_name = match self.key_name {
            Some(v) => v,
            None => return Err(NewXPubBuilderError::MissingKeyName),
        };
        let value = match self.value {
            Some(v) => v,
            None => return Err(NewXPubBuilderError::MissingValue),
        };
        Ok(NewXPub { account_id, key_name, value })
    }
}

impl NewXPub {
    pub fn builder() -> (r: NewXPubBuilder)
        ensures
            r.account_id.is_none() && r.key_name.is_none() && r.value.is_none(),
    {
        NewXPubBuilder { account_id: None, key_name: None, value: None }
    }

    /// The id of the key: its fingerprint.
    pub fn id(&self) -> (r: XPubId)
        ensures
            r.0 == self.value.fingerprint as u128,
    {
        self.value.id()
    }
}

/// What can happen to an imported xpub.
pub enum XPubEvent {
    XPubInitialized { fingerprint: u32, text: String },
    XPubNameUpdated { key_name: String },
}

/// The name the events give the xpub: the latest one set.
pub open spec fn name_of(events: Seq<XPubEvent>) -> Option<String>
    decreases events.len(),
{
    if events.len() == 0 {
        None
    } else {
        match events.last() {
            XPubEvent::XPubNameUpdated { key_name } => Some(key_name),
            _ => name_of(events.drop_last()),
        }
    }
}

/// The xpub the events describe: the first event initializes it, and it has been named.
pub open spec fn rehydrate(account_id: AccountId, events: Seq<XPubEvent>) -> Option<AccountXPub> {
    if events.len() > 0 && name_of(events) is Some {
        match events[0] {
            XPubEvent::XPubInitialized { fingerprint, text } => Some(
                AccountXPub { account_id, key_name: name_of(events).unwrap(), value: XPub { text, fingerprint } },
            ),
            _ => None,
        }
    } else {
        None
    }
}

impl NewXPub {
    /// The events that start the xpub's history: its key, then its name.
    pub fn initial_events(&self) -> (r: EntityEvents<XPubEvent>)
        ensures
            r.wf(),
            r.persisted() == 0,
            r.events() == seq![
                XPubEvent::XPubInitialized { fingerprint: self.value.fingerprint, text: self.value.text },
                XPubEvent::XPubNameUpdated { key_name: self.key_name },
            ],
    {
        let mut initial: Vec<XPubEvent> = Vec::new();
        initial.push(XPubEvent::XPubInitialized { fingerprint: self.value.fingerprint, text: self.value.text.clone() });
        initial.push(XPubEvent::XPubNameUpdated { key_name: self.key_name.clone() });
        proof {
            assert(initial@ =~= seq![
                XPubEvent::XPubInitialized { fingerprint: self.value.fingerprint, text: self.value.text },
                XPubEvent::XPubNameUpdated { key_name: self.key_name },
            ]);
        }
        EntityEvents::init(initial)
    }
}

impl AccountXPub {
    /// The xpub rebuilt from its events; `None` where they do not start with its key or never
    /// name it.
    pub fn from_events(account_id: AccountId, events: &EntityEvents<XPubEvent>) -> (r: Option<AccountXPub>)
        ensures
            r == rehydrate(account_id, events.events()),
    {
        let n = events.len();
        let mut name: Option<String> = None;
        let mut i: usize = 0;
        while i < n
            invariant
                n == events.events().len(),
                i <= n,
                name == name_of(events.events().take(i as int)),
            decreases n - i,
        {
            proof {
                assert(events.events().take(i as int + 1).drop_last() =~= events.events().take(i as int));
            }
            match events.get(i) {
                XPubEvent::XPubNameUpdated { key_name } => {
                    name = Some(key_name.clone());
                },
                XPubEvent::XPubInitialized { .. } => {},
            }
            i += 1;
        }
        proof {
            assert(events.events().take(i as int) =~= events.events());
        }
        if n == 0 {
            return None;
        }
        let key_name = match name {
            Some(k) => k,
            None => return None,
        };
        match events.get(0) {
            XPubEvent::XPubInitialized { fingerprint, text } => Some(
                AccountXPub { account_id, key_name, value: XPub { text: text.clone(), fingerprint: *fingerprint } },
            ),
            XPubEvent::XPubNameUpdated { .. } => None,
        }
    }
}

/// How an xpub is referred to: by its id or by its name in the account.
pub enum XPubRef {
    Id(XPubId),
    Name(String),
}

#[derive(PartialEq, Eq, Structural, Clone, Copy, Debug)]
pub enum XPubError {
    /// The account already has an xpub with that name or id.
    Conflict,
    NotFound,
}

pub open spec fn matches_ref(x: AccountXPub, account_id: AccountId, xpub_ref: XPubRef) -> bool {
    x.account_id == account_id && match xpub_ref {
        XPubRef::Id(id) => id.0 == x.value.fingerprint as u128,
        XPubRef::Name(name) => x.key_name@ == name@,
    }
}

/// The xpubs of the account, in import order.
pub open spec fn account_xpubs(xs: Seq<AccountXPub>, account_id: AccountId) -> Seq<AccountXPub>
    decreases xs.len(),
{
    if xs.len() == 0 {
        Seq::empty()
    } else {
        let rest = account_xpubs(xs.drop_last(), account_id);
        if xs.last().account_id == account_id {
            rest.push(xs.last())
        } else {
            rest
        }
    }
}

/// `i` is the first xpub matching `xpub_ref` in the account.
pub open spec fn first_match(xs: Seq<AccountXPub>, account_id: AccountId, xpub_ref: XPubRef, i: int) -> bool {
    &&& 0 <= i < xs.len()
    &&& matches_ref(xs[i], account_id, xpub_ref)
    &&& forall|k: int| 0 <= k < i ==> !matches_ref(#[trigger] xs[k], account_id, xpub_ref)
}

/// Another xpub of the account than the one at `i` is named `key_name`.
pub open spec fn name_taken(xs: Seq<AccountXPub>, account_id: AccountId, key_name: String, i: int) -> bool {
    exists|j: int| 0 <= j < xs.len() && j != i && (#[trigger] xs[j]).account_id == account_id && xs[j].key_name@ == key_name@
}

/// Name and id are unique within an account.
pub open spec fn xpubs_wf(xs: Seq<AccountXPub>) -> bool {
    forall|i: int, j: int|
        0 <= i < xs.len() && 0 <= j < xs.len() && i != j && (#[trigger] xs[i]).account_id == (#[trigger] xs[j]).account_id
            ==> xs[i].key_name@ != xs[j].key_name@ && xs[i].value.fingerprint != xs[j].value.fingerprint
}

/// The imported xpubs of every account.
pub struct XPubs {
    xpubs: Vec<AccountXPub>,
    logs: Vec<EntityEvents<XPubEvent>>,
}

impl View for XPubs {
    type V = Seq<AccountXPub>;

    closed spec fn view(&self) -> Seq<AccountXPub> {
        self.xpubs@
    }
}

impl XPubs {
    /// The event log of each xpub, in the order of `self@`.
    pub closed spec fn logs(&self) -> Seq<Seq<XPubEvent>> {
        self.logs@.map_values(|l: EntityEvents<XPubEvent>| l.events())
    }

    /// Names and ids are unique within an account, and each xpub is what its events describe.
    pub open spec fn wf(&self) -> bool {
        &&& xpubs_wf(self@)
        &&& self.logs().len() == self@.len()
        &&& forall|i: int| 0 <= i < self@.len() ==> rehydrate((#[trigger] self@[i]).account_id, self.logs()[i]) == Some(self@[i])
    }

    pub fn new() -> (r: XPubs)
        ensures
            r@ == Seq::<AccountXPub>::empty(),
            r.wf(),
    {
        let r = XPubs { xpubs: Vec::new(), logs: Vec::new() };
        proof {
            assert(r.logs() =~= Seq::<Seq<XPubEvent>>::empty());
        }
        r
    }

    /// The events of the xpub at `i`.
    pub fn log(&self, i: usize) -> (r: &EntityEvents<XPubEvent>)
        requires
            self.wf(),
            i < self@.len(),
        ensures
            r.events() == self.logs()[i as int],
    {
        &self.logs[i]
    }

    /// Renames the account's xpub `xpub_ref`, recording the new name as an event. Refused
    /// where no xpub matches and where another xpub of the account has the name.
    pub fn update_name(&mut self, account_id: AccountId, xpub_ref: &XPubRef, key_name: String) -> (r: Result<
        (),
        XPubError,
    >)
        requires
            old(self).wf(),
        ensures
            final(self).wf(),
            r.is_err() ==> final(self)@ == old(self)@ && final(self).logs() == old(self).logs(),
            (forall|i: int| 0 <= i < old(self)@.len() ==> !matches_ref(#[trigger] old(self)@[i], account_id, *xpub_ref))
                ==> r == Err::<(), XPubError>(XPubError::NotFound),
            forall|i: int|
                #[trigger] first_match(old(self)@, account_id, *xpub_ref, i) ==> {
                    &&& name_taken(old(self)@, account_id, key_name, i) ==> r == Err::<(), XPubError>(XPubError::Conflict)
                    &&& !name_taken(old(self)@, account_id, key_name, i) ==> r is Ok && final(self)@ == old(self)@.update(
                        i,
                        AccountXPub { key_name, ..old(self)@[i] },
                    )
                },
            r is Ok ==> exists|i: int|
                0 <= i < old(self)@.len() && matches_ref(#[trigger] old(self)@[i], account_id, *xpub_ref) && final(self)@
                    == old(self)@.update(i, AccountXPub { key_name, ..old(self)@[i] }) && final(self).logs()
                    == old(self).logs().update(i, old(self).logs()[i].push(XPubEvent::XPubNameUpdated { key_name })),
    {
        let mut i: usize = 0;
        while i < self.xpubs.len()
            invariant
                i <= self.xpubs@.len(),
                forall|k: int| 0 <= k < i ==> !matches_ref(#[trigger] self.xpubs@[k], account_id, *xpub_ref),
            ensures
                i <= self.xpubs@.len(),
                forall|k: int| 0 <= k < i ==> !matches_ref(#[trigger] self.xpubs@[k], account_id, *xpub_ref),
                i < self.xpubs@.len() ==> matches_ref(self.xpubs@[i as int], account_id, *xpub_ref),
            decreases self.xpubs.len() - i,
        {
            let x = &self.xpubs[i];
            let hit = x.account_id == account_id && match xpub_ref {
                XPubRef::Id(id) => id.0 == x.value.fingerprint as u128,
                XPubRef::Name(name) => x.key_name == *name,
            };
            if hit {
                break;
            }
            i += 1;
        }
        if i == self.xpubs.len() {
            return Err(XPubError::NotFound);
        }
        let mut j: usize = 0;
        while j < self.xpubs.len()
            invariant
                j <= self.xpubs@.len(),
                i < self.xpubs@.len(),
                matches_ref(self.xpubs@[i as int], account_id, *xpub_ref),
                self@ == old(self)@,
                self.logs() == old(self).logs(),
                old(self).wf(),
                forall|k: int|
                    0 <= k < j && k != i ==> !((#[trigger] self.xpubs@[k]).account_id == account_id
                        && self.xpubs@[k].key_name@ == key_name@),
            decreases self.xpubs.len() - j,
        {
            if j != i && self.xpubs[j].account_id == account_id && self.xpubs[j].key_name == key_name {
                proof {
                    assert(name_taken(self@, account_id, key_name, i as int)) by {
                        assert(self@[j as int].account_id == account_id);
                    }
                    assert forall|x: int| #[trigger] first_match(self@, account_id, *xpub_ref, x) implies x == i as int by {
                        if x < i {
                            assert(!matches_ref(self@[x], account_id, *xpub_ref));
                        } else if x > i {
                            assert(!matches_ref(self@[i as int], account_id, *xpub_ref));
                        }
                    }
                }
                return Err(XPubError::Conflict);
            }
            j += 1;
        }
        proof {
            assert(!name_taken(self@, account_id, key_name, i as int));
            assert forall|x: int| #[trigger] first_match(self@, account_id, *xpub_ref, x) implies x == i as int by {
                if x < i {
                    assert(!matches_ref(self@[x], account_id, *xpub_ref));
                } else if x > i {
                    assert(!matches_ref(self@[i as int], account_id, *xpub_ref));
                }
            }
        }
        let ghost before = self@;
        let ghost logs_before = self.logs();
        let mut log = self.logs.remove(i);
        log.push(XPubEvent::XPubNameUpdated { key_name: key_name.clone() });
        self.logs.insert(i, log);
        self.xpubs[i].key_name = key_name;
        proof {
            let xs = self@;
            assert(xs =~= before.update(i as int, AccountXPub { key_name, ..before[i as int] }));
            assert(self.logs() =~= logs_before.update(
                i as int,
                logs_before[i as int].push(XPubEvent::XPubNameUpdated { key_name }),
            ));
            assert forall|a: int, b: int|
                0 <= a < xs.len() && 0 <= b < xs.len() && a != b && (#[trigger] xs[a]).account_id
                    == (#[trigger] xs[b]).account_id implies xs[a].key_name@ != xs[b].key_name@
                && xs[a].value.fingerprint != xs[b].value.fingerprint by {
                assert(before[a].account_id == before[b].account_id);
            }
            assert forall|a: int| 0 <= a < xs.len() implies rehydrate((#[trigger] xs[a]).account_id, self.logs()[a])
                == Some(xs[a]) by {
                if a == i {
                    let l = logs_before[a].push(XPubEvent::XPubNameUpdated { key_name });
                    assert(l.drop_last() == logs_before[a]);
                    assert(rehydrate(before[a].account_id, logs_before[a]) == Some(before[a]));
                    assert(l[0] == logs_before[a][0]);
                }
            }
        }
        Ok(())
    }

    /// Imports an xpub; refused where the account has one with the same name or id.
    pub fn persist(&mut self, xpub: NewXPub) -> (r: Result<XPubId, XPubError>)
        requires
            old(self).wf(),
        ensures
            final(self).wf(),
            r is Ok ==> final(self).logs() == old(self).logs().push(
                seq![
                    XPubEvent::XPubInitialized { fingerprint: xpub.value.fingerprint, text: xpub.value.text },
                    XPubEvent::XPubNameUpdated { key_name: xpub.key_name },
                ],
            ),
            r.is_err() ==> final(self).logs() == old(self).logs(),
            (exists|i: int|
                0 <= i < old(self)@.len() && (#[trigger] old(self)@[i]).account_id == xpub.account_id && (
                old(self)@[i].key_name@ == xpub.key_name@ || old(self)@[i].value.fingerprint
                    == xpub.value.fingerprint)) <==> r == Err::<XPubId, XPubError>(XPubError::Conflict),
            r.is_err() ==> r == Err::<XPubId, XPubError>(XPubError::Conflict),
            r.is_err() ==> final(self)@ == old(self)@,
            r matches Ok(id) ==> id.0 == xpub.value.fingerprint as u128 && final(self)@ == old(self)@.push(
                AccountXPub { account_id: xpub.account_id, key_name: xpub.key_name, value: xpub.value },
            ),
    {
        let mut i: usize = 0;
        while i < self.xpubs.len()
            invariant
                i <= self.xpubs@.len(),
                self@ == old(self)@,
                self.logs() == old(self).logs(),
                old(self).wf(),
                forall|k: int|
                    0 <= k < i ==> !((#[trigger] self.xpubs@[k]).account_id == xpub.account_id && (
                    self.xpubs@[k].key_name@ == xpub.key_name@ || self.xpubs@[k].value.fingerprint
                        == xpub.value.fingerprint)),
            decreases self.xpubs.len() - i,
        {
            let x = &self.xpubs[i];
            if x.account_id == xpub.account_id && (x.key_name == xpub.key_name || x.value.fingerprint
                == xpub.value.fingerprint) {
                assert(self@[i as int].account_id == xpub.account_id);
                return Err(XPubError::Conflict);
            }
            i += 1;
        }
        let id = xpub.id();
        let ghost before = self@;
        let ghost logs_before = self.logs();
        let mut log = xpub.initial_events();
        log.mark_persisted();
        self.logs.push(log);
        self.xpubs.push(AccountXPub { account_id: xpub.account_id, key_name: xpub.key_name, value: xpub.value });
        proof {
            let xs = self@;
            let l = seq![
                XPubEvent::XPubInitialized { fingerprint: xpub.value.fingerprint, text: xpub.value.text },
                XPubEvent::XPubNameUpdated { key_name: xpub.key_name },
            ];
            assert(self.logs() =~= logs_before.push(l));
            assert(l.drop_last() =~= seq![XPubEvent::XPubInitialized { fingerprint: xpub.value.fingerprint, text: xpub.value.text }]);
            assert(rehydrate(xpub.account_id, l) == Some(xs[xs.len() - 1]));
            assert forall|a: int| 0 <= a < xs.len() implies rehydrate((#[trigger] xs[a]).account_id, self.logs()[a])
                == Some(xs[a]) by {
                if a < before.len() {
                    assert(xs[a] == before[a]);
                }
            }
            assert forall|a: int, b: int|
                0 <= a < xs.len() && 0 <= b < xs.len() && a != b && (#[trigger] xs[a]).account_id
                    == (#[trigger] xs[b]).account_id implies xs[a].key_name@ != xs[b].key_name@
                && xs[a].value.fingerprint != xs[b].value.fingerprint by {
                if a < before.len() && b < before.len() {
                    assert(xs[a] == before[a] && xs[b] == before[b]);
                } else if a < before.len() {
                    assert(xs[a] == before[a]);
                } else {
                    assert(xs[b] == before[b]);
                }
            }
        }
        Ok(id)
    }

    /// The xpub of the account with the given id or name.
    pub fn find_from_ref(&self, account_id: AccountId, xpub_ref: &XPubRef) -> (r: Result<&AccountXPub, XPubError>)
        ensures
            r.is_err() <==> forall|i: int| 0 <= i < self@.len() ==> !matches_ref(#[trigger] self@[i], account_id, *xpub_ref),
            r.is_err() ==> r == Err::<&AccountXPub, XPubError>(XPubError::NotFound),
            r matches Ok(x) ==> matches_ref(*x, account_id, *xpub_ref) && exists|i: int| 0 <= i < self@.len() && self@[i] == *x,
    {
        let mut i: usize = 0;
        while i < self.xpubs.len()
            invariant
                i <= self.xpubs@.len(),
                forall|k: int| 0 <= k < i ==> !matches_ref(#[trigger] self.xpubs@[k], account_id, *xpub_ref),
            decreases self.xpubs.len() - i,
        {
            let x = &self.xpubs[i];
            let hit = x.account_id == account_id && match xpub_ref {
                XPubRef::Id(id) => id.0 == x.value.fingerprint as u128,
                XPubRef::Name(name) => x.key_name == *name,
            };
            if hit {
                assert(matches_ref(self@[i as int], account_id, *xpub_ref));
                return Ok(x);
            }
            i += 1;
        }
        Err(XPubError::NotFound)
    }

    /// The xpubs the account has imported, in import order.
    pub fn list_xpubs(&self, account_id: AccountId) -> (r: Vec<AccountXPub>)
        ensures
            r@ == account_xpubs(self@, account_id),
    {
        let mut r: Vec<AccountXPub> = Vec::new();
        let mut i: usize = 0;
        while i < self.xpubs.len()
            invariant
                i <= self.xpubs@.len(),
                r@ == account_xpubs(self@.take(i as int), account_id),
            decreases self.xpubs.len() - i,
        {
            proof {
                assert(self@.take(i as int + 1).drop_last() =~= self@.take(i as int));
            }
            let x = &self.xpubs[i];
            if x.account_id == account_id {
                r.push(
                    AccountXPub {
                        account_id: x.account_id,
                        key_name: x.key_name.clone(),
                        value: XPub { text: x.value.text.clone(), fingerprint: x.value.fingerprint },
                    },
                );
            }
            i += 1;
        }
        proof {
            assert(self@.take(i as int) =~= self@);
        }
        r
    }
}

} // verus!
