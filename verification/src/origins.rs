//! The origins that a websocket interface accepts connections from.
use vstd::prelude::*;

verus! {

/// Which origins may connect.
#[derive(Debug)]
pub enum AllowedOrigins {
    /// Any origin.
    Any,
    /// The origins in the list, whose order and repetitions carry no meaning.
    Origins(Vec<String>),
}

/// The set of the origins in a list.
pub open spec fn origin_set(origins: Seq<String>) -> Set<Seq<char>> {
    Set::new(|origin: Seq<char>| exists|i: int| 0 <= i < origins.len() && origins[i]@ == origin)
}

impl View for AllowedOrigins {
    type V = Option<Set<Seq<char>>>;

    /// The set of allowed origins; none where every origin is allowed.
    open spec fn view(&self) -> Option<Set<Seq<char>>> {
        match self {
            AllowedOrigins::Any => None,
            AllowedOrigins::Origins(origins) => Some(origin_set(origins@)),
        }
    }
}

fn lists(origins: &Vec<String>, origin: &String) -> (yes: bool)
    ensures
        yes == origin_set(origins@).contains(origin@),
{
    let mut i: usize = 0;
    while i < origins.len()
        invariant
            i <= origins.len(),
            forall|j: int| 0 <= j < i ==> origins@[j]@ != origin@,
        decreases origins.len() - i,
    {
        if origins[i] == *origin {
            return true;
        }
        i = i + 1;
    }
    false
}

fn lists_all(origins: &Vec<String>, others: &Vec<String>) -> (yes: bool)
    ensures
        yes == origin_set(others@).subset_of(origin_set(origins@)),
{
    let mut i: usize = 0;
    while i < others.len()
        invariant
            i <= others.len(),
            forall|j: int|
                0 <= j < i ==> origin_set(origins@).contains(#[trigger] others@[j]@),
        decreases others.len() - i,
    {
        if !lists(origins, &others[i]) {
            assert(origin_set(others@).contains(others@[i as int]@));
            return false;
        }
        i = i + 1;
    }
    true
}

impl AllowedOrigins {
    /// Whether the two allow the same origins.
    pub fn same_as(&self, other: &AllowedOrigins) -> (yes: bool)
        ensures
            yes == (self@ == other@),
    {
        match (self, other) {
            (AllowedOrigins::Any, AllowedOrigins::Any) => true,
            (AllowedOrigins::Origins(these), AllowedOrigins::Origins(those)) => {
                let yes = lists_all(these, those) && lists_all(those, these);
                proof {
                    if yes {
                        assert(origin_set(these@) =~= origin_set(those@));
                    }
                }
                yes
            },
            _ => false,
        }
    }

    /// The origin to name when connecting: the first of the list, where it has one.
    pub fn first_origin(&self) -> (origin: Option<String>)
        ensures
            match (*self, origin) {
                (AllowedOrigins::Any, o) => o is None,
                (AllowedOrigins::Origins(origins), None) => origins@.len() == 0,
                (AllowedOrigins::Origins(origins), Some(o)) => origins@.len() > 0 && o
                    == origins@[0],
            },
            origin matches Some(o) ==> self@ matches Some(allowed) && allowed.contains(o@),
    {
        match self {
            AllowedOrigins::Any => None,
            AllowedOrigins::Origins(origins) => if origins.len() == 0 {
                None
            } else {
                Some(origins[0].clone())
            },
        }
    }
}

impl PartialEq for AllowedOrigins {
    fn eq(&self, other: &AllowedOrigins) -> (yes: bool) {
        self.same_as(other)
    }
}

impl vstd::std_specs::cmp::PartialEqSpecImpl for AllowedOrigins {
    open spec fn obeys_eq_spec() -> bool {
        true
    }

    open spec fn eq_spec(&self, other: &AllowedOrigins) -> bool {
        self@ == other@
    }
}

impl Clone for AllowedOrigins {
    fn clone(&self) -> (copy: AllowedOrigins)
        ensures
            copy@ == self@,
            match (*self, copy) {
                (AllowedOrigins::Any, AllowedOrigins::Any) => true,
                (AllowedOrigins::Origins(these), AllowedOrigins::Origins(those)) => these@
                    == those@,
                _ => false,
            },
    {
        match self {
            AllowedOrigins::Any => AllowedOrigins::Any,
            AllowedOrigins::Origins(origins) => {
                let copy: Vec<String> = origins.clone();
                assert(copy@ =~= origins@);
                AllowedOrigins::Origins(copy)
            },
        }
    }
}

/// The origin is one of the list.
pub open spec fn has_origin(origins: Seq<String>, origin: Seq<char>) -> bool {
    exists|i: int| 0 <= i < origins.len() && (#[trigger] origins[i])@ == origin
}

/// Two values allow the same origins where both allow any, or where each origin of one is one of
/// the other; neither order nor repetitions matter, and allowing any is not allowing none.
pub proof fn law_origins_are_alike_where_they_allow_the_same(
    these: AllowedOrigins,
    those: AllowedOrigins,
)
    ensures
        these@ == those@ <==> match (these, those) {
            (AllowedOrigins::Any, AllowedOrigins::Any) => true,
            (AllowedOrigins::Origins(a), AllowedOrigins::Origins(b)) => forall|origin: Seq<char>|
                #[trigger] has_origin(a@, origin) == has_origin(b@, origin),
            _ => false,
        },
{
    if let (AllowedOrigins::Origins(a), AllowedOrigins::Origins(b)) = (these, those) {
        assert forall|origin: Seq<char>| #[trigger] has_origin(a@, origin) == origin_set(
            a@,
        ).contains(origin) && has_origin(b@, origin) == origin_set(b@).contains(origin) by {
            lemma_set_has_the_origins(a@, origin);
            lemma_set_has_the_origins(b@, origin);
        }
        if forall|origin: Seq<char>| #[trigger] has_origin(a@, origin) == has_origin(b@, origin) {
            assert forall|origin: Seq<char>| #[trigger]
                origin_set(a@).contains(origin) == origin_set(b@).contains(origin) by {
                assert(has_origin(a@, origin) == has_origin(b@, origin));
            }
            assert(origin_set(a@) =~= origin_set(b@));
        }
    }
}

proof fn lemma_set_has_the_origins(origins: Seq<String>, origin: Seq<char>)
    ensures
        origin_set(origins).contains(origin) == has_origin(origins, origin),
{
    if has_origin(origins, origin) {
        let i = choose|i: int| 0 <= i < origins.len() && (#[trigger] origins[i])@ == origin;
        assert(origins[i]@ == origin);
    }
}

} // verus!
