use vstd::prelude::*;

use crate::text::str_equals;

verus! {

/// The reply to a request: the handler's value, or its error message.
pub enum ResponseContent<T> {
    /// The handler's value.
    Success(T),
    /// The handler's error message.
    Failure(String),
}

impl<T> ResponseContent<T> {
    /// Wraps a handler's outcome for the wire.
    pub fn from_result(value: Result<T, String>) -> (r: ResponseContent<T>)
        ensures
            match value {
                Ok(v) => r == ResponseContent::<T>::Success(v),
                Err(e) => r == ResponseContent::<T>::Failure(e),
            },
    {
        match value {
            Ok(it) => ResponseContent::Success(it),
            Err(e) => ResponseContent::Failure(e),
        }
    }

    /// Unwraps a reply into the caller's outcome.
    pub fn into_result(self) -> (r: Result<T, String>)
        ensures
            match self {
                ResponseContent::Success(v) => r == Ok::<T, String>(v),
                ResponseContent::Failure(e) => r == Err::<T, String>(e),
            },
    {
        match self {
            ResponseContent::Success(it) => Ok(it),
            ResponseContent::Failure(e) => Err(e),
        }
    }
}

/// A message between the user interface and the application.
pub enum Payload<T> {
    Request { method: String, sequence: u64, content: T },
    Response { sequence: u64, content: T },
    Events { method: String },
}

/// What to do with an incoming message.
#[derive(Debug, Clone, Copy, PartialEq, Eq, Structural)]
pub enum RouteAction {
    /// Hand the request to the handler registered for its method, and
    /// answer it under this sequence number.
    Dispatch { sequence: u64 },
    /// Complete the pending call with this sequence number.
    Resolve { sequence: u64 },
    /// Nothing to do.
    Ignore,
}

/// The bookkeeping of a request router: the methods that have a handler,
/// the next sequence number, and the calls waiting for an answer.
pub struct RouterState {
    sequence: u64,
    pending: Vec<u64>,
    methods: Vec<String>,
}

pub open spec fn method_set(s: Seq<String>) -> Set<Seq<char>> {
    Set::new(|m: Seq<char>| exists|i: int| 0 <= i < s.len() && #[trigger] s[i]@ == m)
}

impl RouterState {
    #[verifier::type_invariant]
    spec fn inv(self) -> bool {
        self.pending@.no_duplicates()
    }

    pub closed spec fn next_sequence(self) -> u64 {
        self.sequence
    }

    /// The sequence numbers of the calls waiting for an answer.
    pub closed spec fn pending(self) -> Set<u64> {
        self.pending@.to_set()
    }

    /// The methods that have a handler.
    pub closed spec fn methods(self) -> Set<Seq<char>> {
        method_set(self.methods@)
    }

    pub fn new() -> (r: RouterState)
        ensures
            r.next_sequence() == 0,
            r.pending() == Set::<u64>::empty(),
            r.methods() == Set::<Seq<char>>::empty(),
    {
        let r = RouterState { sequence: 0, pending: Vec::new(), methods: Vec::new() };
        assert(r.pending@.to_set() =~= Set::<u64>::empty());
        assert(method_set(r.methods@) =~= Set::<Seq<char>>::empty());
        r
    }

    fn has_method(&self, method: &str) -> (r: bool)
        ensures
            r == self.methods().contains(method@),
    {
        let mut i: usize = 0;
        while i < self.methods.len()
            invariant
                i <= self.methods@.len(),
                forall|j: int| 0 <= j < i ==> #[trigger] self.methods@[j]@ != method@,
            decreases self.methods@.len() - i,
        {
            if str_equals(self.methods[i].as_str(), method) {
                assert(self.methods@[i as int]@ == method@);
                return true;
            }
            i = i + 1;
        }
        false
    }

    /// Registers a handler for `method`; registering it again replaces the
    /// handler, which is the caller's concern.
    pub fn on(&mut self, method: String)
        ensures
            final(self).methods() == old(self).methods().insert(method@),
            final(self).pending() == old(self).pending(),
            final(self).next_sequence() == old(self).next_sequence(),
    {
        proof {
            use_type_invariant(&*self);
        }
        if !self.has_method(method.as_str()) {
            let ghost before = self.methods@;
            let mut methods: Vec<String> = Vec::new();
            std::mem::swap(&mut methods, &mut self.methods);
            methods.push(method);
            self.methods = methods;
            proof {
                assert forall|m: Seq<char>| method_set(self.methods@).contains(m) <==> method_set(
                    before,
                ).insert(method@).contains(m) by {
                    if method_set(before).contains(m) {
                        let i = choose|i: int| 0 <= i < before.len() && #[trigger] before[i]@ == m;
                        assert(self.methods@[i]@ == m);
                    }
                    if m == method@ {
                        assert(self.methods@[before.len() as int]@ == m);
                    }
                    if method_set(self.methods@).contains(m) {
                        let i = choose|i: int| 0 <= i < self.methods@.len() && #[trigger] self.methods@[i]@ == m;
                        if i < before.len() {
                            assert(before[i]@ == m);
                        }
                    }
                }
                assert(method_set(self.methods@) =~= method_set(before).insert(method@));
            }
        } else {
            assert(self.methods().insert(method@) =~= self.methods());
        }
    }

    /// Starts a call: takes the next sequence number, advances the counter
    /// (wrapping) and waits for the answer under that number.
    pub fn begin_call(&mut self) -> (sequence: u64)
        ensures
            sequence == old(self).next_sequence(),
            final(self).next_sequence() == old(self).next_sequence().wrapping_add(1),
            final(self).pending() == old(self).pending().insert(sequence),
            final(self).methods() == old(self).methods(),
    {
        proof {
            use_type_invariant(&*self);
        }
        let sequence = self.sequence;
        self.sequence = self.sequence.wrapping_add(1);
        let mut pending: Vec<u64> = Vec::new();
        std::mem::swap(&mut pending, &mut self.pending);
        let ghost before = pending@;
        if !contains_u64(&pending, sequence) {
            pending.push(sequence);
            proof {
                assert(pending@.no_duplicates()) by {
                    assert forall|i: int, j: int|
                        0 <= i < pending@.len() && 0 <= j < pending@.len() && i != j implies pending@[i]
                            != pending@[j] by {
                        if i < before.len() && j < before.len() {
                        } else if i < before.len() {
                            assert(before.contains(pending@[i]));
                        } else {
                            assert(before.contains(pending@[j]));
                        }
                    }
                }
                assert forall|x: u64| pending@.to_set().contains(x) <==> before.to_set().insert(
                    sequence,
                ).contains(x) by {
                    crate::keyed::lemma_push_contains(before, sequence, x);
                }
                assert(pending@.to_set() =~= before.to_set().insert(sequence));
            }
        } else {
            assert(before.to_set().insert(sequence) =~= before.to_set());
        }
        self.pending = pending;
        sequence
    }

    fn take_pending(&mut self, sequence: u64) -> (found: bool)
        ensures
            found == old(self).pending().contains(sequence),
            final(self).pending() == old(self).pending().remove(sequence),
            final(self).methods() == old(self).methods(),
            final(self).next_sequence() == old(self).next_sequence(),
    {
        proof {
            use_type_invariant(&*self);
        }
        let mut pending: Vec<u64> = Vec::new();
        std::mem::swap(&mut pending, &mut self.pending);
        let ghost before = pending@;
        let r = find_u64(&pending, sequence);
        let found = r.is_some();
        let i: usize = match r {
            Some(i) => i,
            None => 0,
        };
        if found {
            pending.remove(i);
            proof {
                assert(before[i as int] == sequence);
                assert(pending@ =~= before.remove(i as int));
                assert(pending@.no_duplicates()) by {
                    assert forall|a: int, b: int|
                        0 <= a < pending@.len() && 0 <= b < pending@.len() && a != b implies pending@[a]
                            != pending@[b] by {
                        let a2 = if a < i { a } else { a + 1 };
                        let b2 = if b < i { b } else { b + 1 };
                        assert(pending@[a] == before[a2] && pending@[b] == before[b2]);
                    }
                }
                assert forall|x: u64| pending@.to_set().contains(x) <==> before.to_set().remove(
                    sequence,
                ).contains(x) by {
                    if pending@.contains(x) {
                        let a = choose|a: int| 0 <= a < pending@.len() && pending@[a] == x;
                        let a2 = if a < i { a } else { a + 1 };
                        assert(before[a2] == x);
                        assert(a2 != i);
                    }
                    if before.contains(x) && x != sequence {
                        let a = choose|a: int| 0 <= a < before.len() && before[a] == x;
                        if a < i {
                            assert(pending@[a] == x);
                        } else {
                            assert(a != i);
                            assert(pending@[a - 1] == x);
                        }
                    }
                }
                assert(pending@.to_set() =~= before.to_set().remove(sequence));
                assert(before.to_set().contains(sequence));
            }
        } else {
            proof {
                assert(!before.contains(sequence));
                assert(before.to_set().remove(sequence) =~= before.to_set());
            }
        }
        self.pending = pending;
        found
    }

    /// Gives up on a call that timed out; a late answer is then ignored.
    pub fn cancel(&mut self, sequence: u64)
        ensures
            final(self).pending() == old(self).pending().remove(sequence),
            final(self).methods() == old(self).methods(),
            final(self).next_sequence() == old(self).next_sequence(),
    {
        self.take_pending(sequence);
    }

    /// Decides on an incoming message. A request is dispatched when its
    /// method has a handler; an answer completes the call waiting under its
    /// sequence number, once; anything else is ignored.
    pub fn on_payload<T>(&mut self, payload: &Payload<T>) -> (a: RouteAction)
        ensures
            a == route(old(self).methods(), old(self).pending(), *payload),
            final(self).pending() == (match a {
                RouteAction::Resolve { sequence } => old(self).pending().remove(sequence),
                _ => old(self).pending(),
            }),
            final(self).methods() == old(self).methods(),
            final(self).next_sequence() == old(self).next_sequence(),
    {
        match payload {
            Payload::Request { method, sequence, .. } => {
                if self.has_method(method.as_str()) {
                    RouteAction::Dispatch { sequence: *sequence }
                } else {
                    RouteAction::Ignore
                }
            },
            Payload::Response { sequence, .. } => {
                if self.take_pending(*sequence) {
                    RouteAction::Resolve { sequence: *sequence }
                } else {
                    RouteAction::Ignore
                }
            },
            Payload::Events { .. } => RouteAction::Ignore,
        }
    }
}

fn find_u64(v: &Vec<u64>, x: u64) -> (r: Option<usize>)
    ensures
        match r {
            Some(i) => i < v@.len() && v@[i as int] == x,
            None => !v@.contains(x),
        },
{
    let mut i: usize = 0;
    while i < v.len()
        invariant
            i <= v@.len(),
            forall|j: int| 0 <= j < i ==> v@[j] != x,
        decreases v@.len() - i,
    {
        if v[i] == x {
            return Some(i);
        }
        i = i + 1;
    }
    None
}

pub fn contains_u64(v: &Vec<u64>, x: u64) -> (r: bool)
    ensures
        r == v@.contains(x),
{
    let mut i: usize = 0;
    while i < v.len()
        invariant
            i <= v@.len(),
            forall|j: int| 0 <= j < i ==> v@[j] != x,
        decreases v@.len() - i,
    {
        if v[i] == x {
            assert(v@[i as int] == x);
            return true;
        }
        i = i + 1;
    }
    false
}

/// The decision on a message, given the methods with a handler and the
/// calls waiting for an answer.
pub open spec fn route<T>(methods: Set<Seq<char>>, pending: Set<u64>, p: Payload<T>) -> RouteAction {
    match p {
        Payload::Request { method, sequence, .. } => if methods.contains(method@) {
            RouteAction::Dispatch { sequence }
        } else {
            RouteAction::Ignore
        },
        Payload::Response { sequence, .. } => if pending.contains(sequence) {
            RouteAction::Resolve { sequence }
        } else {
            RouteAction::Ignore
        },
        Payload::Events { .. } => RouteAction::Ignore,
    }
}

/// A call is completed by its answer once: the first answer under its
/// sequence number resolves it, a second one is ignored.
pub proof fn lemma_answer_resolves_once<T>(
    methods: Set<Seq<char>>,
    pending: Set<u64>,
    sequence: u64,
    content: T,
)
    ensures
        route(methods, pending.insert(sequence), (Payload::Response { sequence, content }))
            == (RouteAction::Resolve { sequence }),
        route(
            methods,
            pending.insert(sequence).remove(sequence),
            (Payload::Response { sequence, content }),
        ) == RouteAction::Ignore,
{
}

/// Two calls started one after the other get different sequence numbers.
pub proof fn lemma_consecutive_calls_differ(s: u64)
    ensures
        s.wrapping_add(1) != s,
{
}

/// A reply carries back exactly the outcome it was made from.
pub proof fn lemma_response_round_trip<T>(value: Result<T, String>)
    ensures
        ({
            let c = match value {
                Ok(v) => ResponseContent::<T>::Success(v),
                Err(e) => ResponseContent::<T>::Failure(e),
            };
            (match c {
                ResponseContent::Success(v) => Ok::<T, String>(v),
                ResponseContent::Failure(e) => Err::<T, String>(e),
            }) == value
        }),
{
}

} // verus!
