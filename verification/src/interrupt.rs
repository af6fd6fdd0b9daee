//! Interrupt tokens: the state behind waiting for a user interrupt.
//!
//! A token records whether an interrupt arrived and not yet consumed, and
//! the waker of the task that waits for one.  The registry holds the
//! server's and the client's token; the interrupt handler, the runtime's
//! driver and the waiting tasks act on it through the functions here.
use vstd::prelude::*;
use vstd::string::*;
use crate::{UintrError, UintrResult};

verus! {

/// `std::task::Waker`, carried through without looking inside.
#[verifier::external_type_specification]
#[verifier::external_body]
pub struct ExWaker(std::task::Waker);

/// The interrupt vector of the server's token.
pub const SERVER_TOKEN: u64 = 0;

/// The interrupt vector of the client's token.
pub const CLIENT_TOKEN: u64 = 1;

/// What a token holds, as a mathematical value.
pub struct TokenState {
    pub name: Seq<char>,
    /// An interrupt arrived and has not been consumed.
    pub pending: bool,
    /// The waker of the task that waits on the token, if one does.
    pub waker: Option<std::task::Waker>,
}

/// The token once an interrupt arrives: pending.
pub open spec fn token_interrupted(t: TokenState) -> TokenState {
    TokenState { pending: true, ..t }
}

/// Polling a token with `w`: a pending interrupt is consumed and the poll is
/// ready; otherwise `w` becomes the token's waker and the poll is pending.
pub open spec fn token_polled(t: TokenState, w: std::task::Waker) -> (TokenState, bool) {
    if t.pending {
        (TokenState { pending: false, ..t }, true)
    } else {
        (TokenState { waker: Some(w), ..t }, false)
    }
}

/// Handing out a token's waker for waking: only when an interrupt is
/// pending and a task waits; the pending interrupt stays for that task.
pub open spec fn token_woken(t: TokenState) -> (TokenState, Option<std::task::Waker>) {
    if t.pending && t.waker is Some {
        (TokenState { waker: None, ..t }, t.waker)
    } else {
        (t, None)
    }
}

/// The handle of one UINTR interrupt source.
pub struct UintrToken {
    name: String,
    pending: bool,
    waker: Option<std::task::Waker>,
}

impl View for UintrToken {
    type V = TokenState;

    closed spec fn view(&self) -> TokenState {
        TokenState { name: self.name@, pending: self.pending, waker: self.waker }
    }
}

impl UintrToken {
    /// A new token named `name`, with nothing pending and nobody waiting.
    pub fn new(name: &str) -> (t: Self)
        ensures
            t@ == (TokenState { name: name@, pending: false, waker: None }),
    {
        UintrToken { name: String::from_str(name), pending: false, waker: None }
    }

    /// The token's name.
    pub fn name(&self) -> (n: &str)
        ensures
            n@ == self@.name,
    {
        self.name.as_str()
    }

    /// Whether an interrupt is pending.
    pub fn is_pending(&self) -> (b: bool)
        ensures
            b == self@.pending,
    {
        self.pending
    }

    /// Records that an interrupt arrived.
    pub fn set_pending(&mut self)
        ensures
            final(self)@ == token_interrupted(old(self)@),
    {
        self.pending = true;
    }

    /// Polls the token on behalf of the task whose waker is `waker`;
    /// returns whether the wait is over.
    pub fn poll(&mut self, waker: std::task::Waker) -> (ready: bool)
        ensures
            (final(self)@, ready) == token_polled(old(self)@, waker),
    {
        if self.pending {
            self.pending = false;
            true
        } else {
            self.waker = Some(waker);
            false
        }
    }

    /// The waker to wake, if an interrupt is pending and a task waits.
    pub fn take_waker(&mut self) -> (w: Option<std::task::Waker>)
        ensures
            (final(self)@, w) == token_woken(old(self)@),
    {
        if self.pending {
            self.waker.take()
        } else {
            None
        }
    }
}

/// Which token of the registry.
#[derive(Clone, Copy, Debug, PartialEq, Eq, Structural)]
pub enum TokenSlot {
    Server,
    Client,
}

/// The registry as a mathematical value.
pub struct RegistryState {
    pub server: Option<TokenState>,
    pub client: Option<TokenState>,
    /// How many times the server's token was initialized (wrapping).
    pub server_generation: u64,
    /// How many times the client's token was initialized (wrapping).
    pub client_generation: u64,
    /// The tokens that initializing a slot again replaced, oldest first.
    pub retired: Seq<RetiredState>,
}

/// A replaced token, which handles taken before the replacement still hold.
pub struct RetiredState {
    pub slot: TokenSlot,
    pub generation: u64,
    pub token: TokenState,
}

/// The position of the latest replaced token of `slot` from `generation`,
/// or -1 when there is none.
pub open spec fn find_retired(s: Seq<RetiredState>, slot: TokenSlot, generation: u64) -> int
    decreases s.len(),
{
    if s.len() == 0 {
        -1
    } else if s.last().slot == slot && s.last().generation == generation {
        s.len() - 1
    } else {
        find_retired(s.drop_last(), slot, generation)
    }
}

/// The registry once the token in `slot` is initialized (again) with name
/// `name`: a token it replaces is kept for the handles that hold it, the
/// new token has nothing pending and nobody waiting, and the slot's
/// generation moves on.
pub open spec fn registry_initialized(r: RegistryState, slot: TokenSlot, name: Seq<char>) -> RegistryState {
    let retired = match slot_token(r, slot) {
        Some(t) => r.retired.push(RetiredState { slot, generation: slot_generation(r, slot), token: t }),
        None => r.retired,
    };
    let fresh = Some(TokenState { name, pending: false, waker: None });
    match slot {
        TokenSlot::Server => RegistryState {
            server: fresh,
            server_generation: next_generation(r.server_generation),
            retired,
            ..r
        },
        TokenSlot::Client => RegistryState {
            client: fresh,
            client_generation: next_generation(r.client_generation),
            retired,
            ..r
        },
    }
}

/// The generation after `g`: one more, wrapping to 0 after `u64::MAX`.
pub open spec fn next_generation(g: u64) -> u64 {
    if g == u64::MAX { 0 } else { (g + 1) as u64 }
}

/// The generation of the token in `slot`.
pub open spec fn slot_generation(r: RegistryState, slot: TokenSlot) -> u64 {
    match slot {
        TokenSlot::Server => r.server_generation,
        TokenSlot::Client => r.client_generation,
    }
}

/// A token that may not exist, once an interrupt arrives.
pub open spec fn maybe_interrupted(t: Option<TokenState>) -> Option<TokenState> {
    match t {
        Some(t) => Some(token_interrupted(t)),
        None => None,
    }
}

/// The registry once an interrupt with `vector` arrives: the server's token
/// answers `SERVER_TOKEN`, the client's `CLIENT_TOKEN`, a token that was not
/// initialized answers nothing, and other vectors are ignored.
pub open spec fn registry_interrupted(r: RegistryState, vector: u64) -> RegistryState {
    if vector == SERVER_TOKEN {
        RegistryState { server: maybe_interrupted(r.server), ..r }
    } else if vector == CLIENT_TOKEN {
        RegistryState { client: maybe_interrupted(r.client), ..r }
    } else {
        r
    }
}

/// The token in `slot`.
pub open spec fn slot_token(r: RegistryState, slot: TokenSlot) -> Option<TokenState> {
    match slot {
        TokenSlot::Server => r.server,
        TokenSlot::Client => r.client,
    }
}

/// The registry with `t` in `slot`.
pub open spec fn with_slot(r: RegistryState, slot: TokenSlot, t: Option<TokenState>) -> RegistryState {
    match slot {
        TokenSlot::Server => RegistryState { server: t, ..r },
        TokenSlot::Client => RegistryState { client: t, ..r },
    }
}

/// Polling the token in `slot` with `w`, for a handle taken at
/// `generation`: `None` when the slot was never initialized; otherwise the
/// registry after the poll and whether it is ready.  A handle of an earlier
/// generation polls the token it holds, which was replaced: no new
/// interrupt reaches it, but one that arrived before the replacement is
/// still delivered to it once.
pub open spec fn registry_polled(r: RegistryState, slot: TokenSlot, generation: u64, w: std::task::Waker)
    -> Option<(RegistryState, bool)>
{
    match slot_token(r, slot) {
        Some(t) => if generation == slot_generation(r, slot) {
            let (t2, ready) = token_polled(t, w);
            Some((with_slot(r, slot, Some(t2)), ready))
        } else {
            let i = find_retired(r.retired, slot, generation);
            if i >= 0 {
                let old = r.retired[i];
                let (t2, ready) = token_polled(old.token, w);
                Some((RegistryState { retired: r.retired.update(i, RetiredState { token: t2, ..old }), ..r }, ready))
            } else {
                Some((r, false))
            }
        },
        None => None,
    }
}

/// A token that may not exist is pending.
pub open spec fn is_pending_token(t: Option<TokenState>) -> bool {
    match t {
        Some(t) => t.pending,
        None => false,
    }
}

/// A token that may not exist, once its waker is handed out for waking.
pub open spec fn maybe_woken(t: Option<TokenState>) -> (Option<TokenState>, Option<std::task::Waker>) {
    match t {
        Some(t) => {
            let (t2, w) = token_woken(t);
            (Some(t2), w)
        },
        None => (None, None),
    }
}

/// The wakers handed out for waking: the server's first, then the client's.
pub open spec fn wakers_handed_out(r: RegistryState) -> Seq<std::task::Waker> {
    let s = match maybe_woken(r.server).1 {
        Some(w) => seq![w],
        None => Seq::empty(),
    };
    match maybe_woken(r.client).1 {
        Some(w) => s.push(w),
        None => s,
    }
}

/// The registry once the wakers are handed out.
pub open spec fn registry_woken(r: RegistryState) -> RegistryState {
    RegistryState { server: maybe_woken(r.server).0, client: maybe_woken(r.client).0, ..r }
}

/// A replaced token with the slot and generation it had.
pub struct RetiredToken {
    slot: TokenSlot,
    generation: u64,
    token: UintrToken,
}

impl View for RetiredToken {
    type V = RetiredState;

    closed spec fn view(&self) -> RetiredState {
        RetiredState { slot: self.slot, generation: self.generation, token: self.token@ }
    }
}

/// The server's and the client's tokens, each present once initialized,
/// and the tokens they replaced.
pub struct InterruptRegistry {
    server: Option<UintrToken>,
    client: Option<UintrToken>,
    server_generation: u64,
    client_generation: u64,
    retired: Vec<RetiredToken>,
}

/// The values of the replaced tokens.
pub open spec fn retired_view(v: Seq<RetiredToken>) -> Seq<RetiredState> {
    v.map_values(|t: RetiredToken| t@)
}

/// The value of a token that may not exist.
pub open spec fn token_view(t: Option<UintrToken>) -> Option<TokenState> {
    match t {
        Some(t) => Some(t@),
        None => None,
    }
}

impl View for InterruptRegistry {
    type V = RegistryState;

    closed spec fn view(&self) -> RegistryState {
        RegistryState {
            server: token_view(self.server),
            client: token_view(self.client),
            server_generation: self.server_generation,
            client_generation: self.client_generation,
            retired: retired_view(self.retired@),
        }
    }
}

/// `Err(NotInitialized)` for a slot without token, else a reference to it.
pub open spec fn token_result_ok(r: UintrResult<&UintrToken>, t: Option<TokenState>) -> bool {
    match t {
        Some(state) => r matches Ok(token) && token@ == state,
        None => r == Err::<&UintrToken, UintrError>(UintrError::NotInitialized),
    }
}

impl InterruptRegistry {
    /// A registry with neither token initialized.
    pub fn new() -> (r: Self)
        ensures
            r@ == (RegistryState {
                server: None,
                client: None,
                server_generation: 0,
                client_generation: 0,
                retired: Seq::empty(),
            }),
    {
        let r = InterruptRegistry {
            server: None,
            client: None,
            server_generation: 0,
            client_generation: 0,
            retired: Vec::new(),
        };
        assert(retired_view(r.retired@) =~= Seq::<RetiredState>::empty());
        r
    }

    /// The generation of the token in `slot`; a handle taken now polls with it.
    pub fn generation(&self, slot: TokenSlot) -> (g: u64)
        ensures
            g == slot_generation(self@, slot),
    {
        match slot {
            TokenSlot::Server => self.server_generation,
            TokenSlot::Client => self.client_generation,
        }
    }

    /// Initializes (or resets) the server's token, named `SERVER`.
    pub fn init_server_token(&mut self)
        ensures
            final(self)@ == registry_initialized(old(self)@, TokenSlot::Server, "SERVER"@),
    {
        let ghost before = self.retired@;
        let replaced = self.server.take();
        self.server = Some(UintrToken::new("SERVER"));
        match replaced {
            Some(token) => {
                self.retired.push(RetiredToken { slot: TokenSlot::Server, generation: self.server_generation, token });
                assert(retired_view(self.retired@) =~= retired_view(before).push(self.retired@.last()@));
            },
            None => {},
        }
        self.server_generation = if self.server_generation == u64::MAX { 0 } else { self.server_generation + 1 };
    }

    /// Initializes (or resets) the client's token, named `CLIENT`.
    pub fn init_client_token(&mut self)
        ensures
            final(self)@ == registry_initialized(old(self)@, TokenSlot::Client, "CLIENT"@),
    {
        let ghost before = self.retired@;
        let replaced = self.client.take();
        self.client = Some(UintrToken::new("CLIENT"));
        match replaced {
            Some(token) => {
                self.retired.push(RetiredToken { slot: TokenSlot::Client, generation: self.client_generation, token });
                assert(retired_view(self.retired@) =~= retired_view(before).push(self.retired@.last()@));
            },
            None => {},
        }
        self.client_generation = if self.client_generation == u64::MAX { 0 } else { self.client_generation + 1 };
    }

    /// The server's token, once initialized.
    pub fn get_server_token(&self) -> (r: UintrResult<&UintrToken>)
        ensures
            token_result_ok(r, self@.server),
    {
        match &self.server {
            Some(t) => Ok(t),
            None => Err(UintrError::NotInitialized),
        }
    }

    /// The client's token, once initialized.
    pub fn get_client_token(&self) -> (r: UintrResult<&UintrToken>)
        ensures
            token_result_ok(r, self@.client),
    {
        match &self.client {
            Some(t) => Ok(t),
            None => Err(UintrError::NotInitialized),
        }
    }

    /// What the interrupt handler does for an interrupt with `vector`.
    pub fn interrupt_callback(&mut self, vector: u64)
        ensures
            final(self)@ == registry_interrupted(old(self)@, vector),
    {
        if vector == SERVER_TOKEN {
            match &mut self.server {
                Some(t) => t.set_pending(),
                None => {},
            }
        } else if vector == CLIENT_TOKEN {
            match &mut self.client {
                Some(t) => t.set_pending(),
                None => {},
            }
        }
    }

    /// Whether either token has an interrupt pending.
    pub fn check_uintr_pending(&self) -> (b: bool)
        ensures
            b == (is_pending_token(self@.server) || is_pending_token(self@.client)),
    {
        let server_pending = match &self.server {
            Some(t) => t.is_pending(),
            None => false,
        };
        let client_pending = match &self.client {
            Some(t) => t.is_pending(),
            None => false,
        };
        server_pending || client_pending
    }

    /// Hands out, for waking, the waker of each token that has an interrupt
    /// pending and a task waiting; their number is what the runtime's
    /// driver reports.
    pub fn process_uintr_wakers(&mut self) -> (wakers: Vec<std::task::Waker>)
        ensures
            wakers@ == wakers_handed_out(old(self)@),
            final(self)@ == registry_woken(old(self)@),
    {
        let mut wakers: Vec<std::task::Waker> = Vec::new();
        match &mut self.server {
            Some(t) => match t.take_waker() {
                Some(w) => wakers.push(w),
                None => {},
            },
            None => {},
        }
        match &mut self.client {
            Some(t) => match t.take_waker() {
                Some(w) => wakers.push(w),
                None => {},
            },
            None => {},
        }
        assert(wakers@ =~= wakers_handed_out(old(self)@));
        wakers
    }

    /// Polls the token in `slot`, for a handle taken at `generation`, on
    /// behalf of the task whose waker is `waker`: whether the wait is over,
    /// or `NotInitialized` for a slot without token.
    pub fn poll(&mut self, slot: TokenSlot, generation: u64, waker: std::task::Waker) -> (r: UintrResult<bool>)
        ensures
            match registry_polled(old(self)@, slot, generation, waker) {
                Some((after, ready)) => final(self)@ == after && r == Ok::<bool, UintrError>(ready),
                None => final(self)@ == old(self)@
                    && r == Err::<bool, UintrError>(UintrError::NotInitialized),
            },
    {
        let current = self.generation(slot);
        let initialized = match slot {
            TokenSlot::Server => self.server.is_some(),
            TokenSlot::Client => self.client.is_some(),
        };
        if !initialized {
            return Err(UintrError::NotInitialized);
        }
        if generation == current {
            let token = match slot {
                TokenSlot::Server => &mut self.server,
                TokenSlot::Client => &mut self.client,
            };
            match token {
                Some(t) => Ok(t.poll(waker)),
                None => Err(UintrError::NotInitialized),
            }
        } else {
            match self.find_retired(slot, generation) {
                Some(i) => {
                    let ghost before = self.retired@;
                    let ready = self.retired[i].token.poll(waker);
                    assert(retired_view(self.retired@) =~= retired_view(before).update(
                        i as int,
                        self.retired@[i as int]@,
                    ));
                    Ok(ready)
                },
                None => Ok(false),
            }
        }
    }
}

impl InterruptRegistry {
    /// The position of the latest replaced token of `slot` from `generation`.
    fn find_retired(&self, slot: TokenSlot, generation: u64) -> (r: Option<usize>)
        ensures
            match r {
                Some(i) => i == find_retired(self@.retired, slot, generation) && i < self.retired@.len(),
                None => find_retired(self@.retired, slot, generation) == -1,
            },
    {
        let ghost all = self@.retired;
        let mut n: usize = self.retired.len();
        assert(all.subrange(0, n as int) =~= all);
        while n > 0
            invariant
                n <= self.retired@.len(),
                all == retired_view(self.retired@),
                find_retired(all, slot, generation) == find_retired(all.subrange(0, n as int), slot, generation),
            decreases n,
        {
            let entry = &self.retired[n - 1];
            assert(all.subrange(0, n as int).last() == entry@);
            assert(all.subrange(0, n as int).drop_last() =~= all.subrange(0, n - 1));
            if entry.slot == slot && entry.generation == generation {
                return Some(n - 1);
            }
            n = n - 1;
        }
        None
    }
}

/// The interrupt vector a slot's token answers.
pub open spec fn slot_vector(slot: TokenSlot) -> u64 {
    match slot {
        TokenSlot::Server => SERVER_TOKEN,
        TokenSlot::Client => CLIENT_TOKEN,
    }
}

/// An interrupt for an initialized token is delivered exactly once: the
/// next poll is ready, and a poll right after it waits again.
pub proof fn law_interrupt_delivered_once(
    r: RegistryState,
    slot: TokenSlot,
    first: std::task::Waker,
    second: std::task::Waker,
)
    requires
        slot_token(r, slot) is Some,
    ensures
        ({
            let g = slot_generation(r, slot);
            let first_poll = registry_polled(registry_interrupted(r, slot_vector(slot)), slot, g, first);
            &&& first_poll is Some
            &&& first_poll.unwrap().1
            &&& registry_polled(first_poll.unwrap().0, slot, g, second) is Some
            &&& !registry_polled(first_poll.unwrap().0, slot, g, second).unwrap().1
        }),
{
}

/// A handle taken before its slot's token was initialized again keeps the
/// replaced token: an interrupt that reached that token before the
/// replacement is delivered to the handle once, while the new token has
/// nothing pending.
pub proof fn law_replaced_token_keeps_its_interrupt(
    r: RegistryState,
    slot: TokenSlot,
    name: Seq<char>,
    first: std::task::Waker,
    second: std::task::Waker,
)
    requires
        slot_token(r, slot) is Some,
    ensures
        ({
            let g = slot_generation(r, slot);
            let r2 = registry_initialized(registry_interrupted(r, slot_vector(slot)), slot, name);
            let old_poll = registry_polled(r2, slot, g, first);
            &&& slot_generation(r2, slot) != g
            &&& old_poll is Some && old_poll.unwrap().1
            &&& registry_polled(old_poll.unwrap().0, slot, g, second) is Some
            &&& !registry_polled(old_poll.unwrap().0, slot, g, second).unwrap().1
            &&& registry_polled(r2, slot, slot_generation(r2, slot), first) is Some
            &&& !registry_polled(r2, slot, slot_generation(r2, slot), first).unwrap().1
        }),
{
    let g = slot_generation(r, slot);
    let r1 = registry_interrupted(r, slot_vector(slot));
    let r2 = registry_initialized(r1, slot, name);
    assert(r2.retired.last().slot == slot && r2.retired.last().generation == g);
    assert(find_retired(r2.retired, slot, g) == r2.retired.len() - 1);
    let old_poll = registry_polled(r2, slot, g, first);
    let r3 = old_poll.unwrap().0;
    assert(r3.retired.last().slot == slot && r3.retired.last().generation == g);
    assert(find_retired(r3.retired, slot, g) == r3.retired.len() - 1);
}

/// Interrupts that arrive after a replacement reach only the new token: a
/// handle on the replaced token, which had nothing pending, stays waiting.
pub proof fn law_replaced_token_gets_no_new_interrupt(
    r: RegistryState,
    slot: TokenSlot,
    name: Seq<char>,
    w: std::task::Waker,
)
    requires
        slot_token(r, slot) matches Some(t) && !t.pending,
    ensures
        ({
            let g = slot_generation(r, slot);
            let r3 = registry_interrupted(registry_initialized(r, slot, name), slot_vector(slot));
            &&& registry_polled(r3, slot, g, w) is Some
            &&& !registry_polled(r3, slot, g, w).unwrap().1
            &&& registry_polled(r3, slot, slot_generation(r3, slot), w) is Some
            &&& registry_polled(r3, slot, slot_generation(r3, slot), w).unwrap().1
        }),
{
    let g = slot_generation(r, slot);
    let r3 = registry_interrupted(registry_initialized(r, slot, name), slot_vector(slot));
    assert(r3.retired.last().slot == slot && r3.retired.last().generation == g);
    assert(find_retired(r3.retired, slot, g) == r3.retired.len() - 1);
}

/// Once an interrupt arrives for an initialized token, the registry reports
/// a pending interrupt, and handing out wakers does not consume it.
pub proof fn law_interrupt_stays_pending_until_polled(r: RegistryState, slot: TokenSlot)
    requires
        slot_token(r, slot) is Some,
    ensures
        is_pending_token(slot_token(registry_interrupted(r, slot_vector(slot)), slot)),
        is_pending_token(slot_token(registry_woken(registry_interrupted(r, slot_vector(slot))), slot)),
{
}

/// At most one waker per token is handed out, and only for pending tokens.
pub proof fn law_wakers_only_for_pending(r: RegistryState)
    ensures
        wakers_handed_out(r).len() <= 2,
        wakers_handed_out(r).len() > 0 ==> is_pending_token(r.server) || is_pending_token(r.client),
        !is_pending_token(r.server) && !is_pending_token(r.client) ==> registry_woken(r) == r,
{
}


/// An interrupt marks only the token its vector names, and only as pending:
/// a server interrupt leaves the client's token exactly as it was, a client
/// interrupt leaves the server's token exactly as it was, and any other
/// vector changes nothing.
pub proof fn law_interrupt_marks_only_its_token(r: RegistryState, vector: u64)
    ensures
        SERVER_TOKEN != CLIENT_TOKEN,
        registry_interrupted(r, SERVER_TOKEN).client == r.client,
        registry_interrupted(r, CLIENT_TOKEN).server == r.server,
        registry_interrupted(r, SERVER_TOKEN).server == (match r.server {
            Some(t) => Some(TokenState { pending: true, name: t.name, waker: t.waker }),
            None => None::<TokenState>,
        }),
        registry_interrupted(r, CLIENT_TOKEN).client == (match r.client {
            Some(t) => Some(TokenState { pending: true, name: t.name, waker: t.waker }),
            None => None::<TokenState>,
        }),
        registry_interrupted(r, vector).retired == r.retired,
        registry_interrupted(r, vector).server_generation == r.server_generation,
        registry_interrupted(r, vector).client_generation == r.client_generation,
        vector != SERVER_TOKEN && vector != CLIENT_TOKEN ==> registry_interrupted(r, vector) == r,
{
}

/// Waking looks at each token on its own: a token hands out its waker only
/// when it has an interrupt pending and a task waits, and then loses the
/// waker; a token with nothing pending keeps its waker and hands out
/// nothing, whatever the other token holds.  The server's waker comes first.
pub proof fn law_each_token_wakes_on_its_own(r: RegistryState)
    ensures
        !is_pending_token(r.server) ==> registry_woken(r).server == r.server,
        !is_pending_token(r.client) ==> registry_woken(r).client == r.client,
        (r.server matches Some(t) && t.pending && t.waker is Some) ==> (
            registry_woken(r).server == Some(TokenState { waker: None, name: r.server.unwrap().name,
                pending: true })
            && wakers_handed_out(r).len() >= 1
            && wakers_handed_out(r)[0] == r.server.unwrap().waker.unwrap()),
        (r.client matches Some(t) && t.pending && t.waker is Some) ==> (
            registry_woken(r).client == Some(TokenState { waker: None, name: r.client.unwrap().name,
                pending: true })
            && wakers_handed_out(r).len() >= 1
            && wakers_handed_out(r).last() == r.client.unwrap().waker.unwrap()),
        wakers_handed_out(r).len() == (if r.server matches Some(t) && t.pending && t.waker is Some { 1int } else { 0int })
            + (if r.client matches Some(t) && t.pending && t.waker is Some { 1int } else { 0int }),
        registry_woken(r).retired == r.retired,
        registry_woken(r).server_generation == r.server_generation,
        registry_woken(r).client_generation == r.client_generation,
{
}


/// A poll of a token with an interrupt pending is ready and consumes it,
/// keeping the waiting task's waker as it was; a poll of a token with
/// nothing pending is not ready and leaves the polling task's waker there,
/// so that waking can reach it.  The name never changes.
pub proof fn law_poll_consumes_or_registers(t: TokenState, w: std::task::Waker)
    ensures
        t.pending ==> token_polled(t, w) == (TokenState { name: t.name, pending: false, waker: t.waker }, true),
        !t.pending ==> token_polled(t, w) == (TokenState { name: t.name, pending: false, waker: Some(w) }, false),
{
}

/// Initializing a slot gives it a fresh token under a new generation, with
/// nothing pending and nobody waiting, and leaves the other slot as it was.
pub proof fn law_initialize_gives_fresh_token(r: RegistryState, name: Seq<char>)
    ensures
        registry_initialized(r, TokenSlot::Server, name).server
            == Some(TokenState { name: name, pending: false, waker: None }),
        registry_initialized(r, TokenSlot::Server, name).client == r.client,
        registry_initialized(r, TokenSlot::Server, name).client_generation == r.client_generation,
        registry_initialized(r, TokenSlot::Server, name).server_generation != r.server_generation,
        registry_initialized(r, TokenSlot::Client, name).client
            == Some(TokenState { name: name, pending: false, waker: None }),
        registry_initialized(r, TokenSlot::Client, name).server == r.server,
        registry_initialized(r, TokenSlot::Client, name).server_generation == r.server_generation,
        registry_initialized(r, TokenSlot::Client, name).client_generation != r.client_generation,
{
}

} // verus!
