//! The configuration that the streaming controller runs with.

use crate::text::texts;
use std::path::PathBuf;
use vstd::prelude::*;

verus! {

/// The address of the public endpoint where none is given.
pub const DEFAULT_PUBLIC_ENDPOINT: &'static str = "0.0.0.0:9003";

/// The address of the private endpoint where none is given.
pub const DEFAULT_PRIVATE_ENDPOINT: &'static str = "0.0.0.0:9004";

/// The configuration of a running controller.
#[derive(Debug)]
pub struct ScConfig {
    /// Whether the metadata is only read, never written.
    pub read_only_metadata: bool,
    /// The address on which clients are served. With TLS this is the
    /// plaintext address behind the proxy.
    pub public_endpoint: String,
    /// The address on which the other parts of the cluster are served.
    pub private_endpoint: String,
    /// Where the scopes of client certificates are read from.
    pub x509_auth_scopes: Option<PathBuf>,
    /// The controllers that may connect. No name occurs twice.
    pub white_list: Vec<String>,
}

/// What a configuration holds, with each string as its text.
pub struct ScConfigView {
    pub read_only_metadata: bool,
    pub public_endpoint: Seq<char>,
    pub private_endpoint: Seq<char>,
    pub x509_auth_scopes: Option<PathBuf>,
    pub white_list: Seq<Seq<char>>,
}

impl View for ScConfig {
    type V = ScConfigView;

    open spec fn view(&self) -> ScConfigView {
        ScConfigView {
            read_only_metadata: self.read_only_metadata,
            public_endpoint: self.public_endpoint@,
            private_endpoint: self.private_endpoint@,
            x509_auth_scopes: self.x509_auth_scopes,
            white_list: texts(self.white_list@),
        }
    }
}

impl ScConfigView {
    /// What a configuration holds before any option is applied.
    pub open spec fn initial() -> ScConfigView {
        ScConfigView {
            read_only_metadata: false,
            public_endpoint: DEFAULT_PUBLIC_ENDPOINT@,
            private_endpoint: DEFAULT_PRIVATE_ENDPOINT@,
            x509_auth_scopes: None,
            white_list: Seq::empty(),
        }
    }
}

impl ScConfig {
    /// Whether the configuration is well formed: no controller is listed
    /// twice.
    pub open spec fn wf(self) -> bool {
        self@.white_list.no_duplicates()
    }
}

impl Default for ScConfig {
    /// The configuration before any option is applied: both endpoints at
    /// their default address, nothing else set.
    fn default() -> (config: ScConfig)
        ensures
            config@ == ScConfigView::initial(),
            config.wf(),
    {
        let config = ScConfig {
            read_only_metadata: false,
            public_endpoint: String::from_str(DEFAULT_PUBLIC_ENDPOINT),
            private_endpoint: String::from_str(DEFAULT_PRIVATE_ENDPOINT),
            x509_auth_scopes: None,
            white_list: Vec::new(),
        };
        assert(config@.white_list =~= Seq::empty());
        config
    }
}

/// The names of `list` with every repetition left out: each name stands
/// where it first occurs.
pub open spec fn distinct(list: Seq<Seq<char>>) -> Seq<Seq<char>>
    decreases list.len(),
{
    if list.len() == 0 {
        Seq::empty()
    } else {
        let before = distinct(list.drop_last());
        if before.contains(list.last()) {
            before
        } else {
            before.push(list.last())
        }
    }
}

/// `distinct` keeps exactly the names of the list, each of them once.
pub proof fn lemma_distinct(list: Seq<Seq<char>>)
    ensures
        distinct(list).no_duplicates(),
        forall|name: Seq<char>| distinct(list).contains(name) <==> list.contains(name),
    decreases list.len(),
{
    if list.len() > 0 {
        let front = list.drop_last();
        let before = distinct(front);
        lemma_distinct(front);
        assert forall|name: Seq<char>| distinct(list).contains(name) <==> list.contains(name) by {
            assert(before.contains(name) <==> front.contains(name));
            if list.contains(name) {
                let i = choose|i: int| 0 <= i < list.len() && list[i] == name;
                if i < list.len() - 1 {
                    assert(front[i] == name);
                    assert(front.contains(name));
                    let j = choose|j: int| 0 <= j < before.len() && before[j] == name;
                    assert(distinct(list)[j] == name);
                } else if before.contains(name) {
                } else {
                    assert(distinct(list)[before.len() as int] == name);
                }
            }
            if distinct(list).contains(name) {
                let j = choose|j: int| 0 <= j < distinct(list).len() && distinct(list)[j] == name;
                if j < before.len() {
                    assert(before[j] == name);
                    assert(before.contains(name));
                    let i = choose|i: int| 0 <= i < front.len() && front[i] == name;
                    assert(list[i] == name);
                } else {
                    assert(list[list.len() - 1] == name);
                }
            }
        }
    }
}

/// Whether `name` is one of `list`.
fn lists(list: &Vec<String>, name: &String) -> (found: bool)
    ensures
        found == texts(list@).contains(name@),
{
    let mut i: usize = 0;
    while i < list.len()
        invariant
            i <= list.len(),
            forall|j: int| 0 <= j < i ==> texts(list@)[j] != name@,
        decreases list.len() - i,
    {
        if list[i] == *name {
            assert(texts(list@)[i as int] == name@);
            return true;
        }
        i += 1;
    }
    false
}

/// The names of `list` with every repetition left out: each name stands
/// where it first occurs.
pub fn distinct_names(list: Vec<String>) -> (names: Vec<String>)
    ensures
        texts(names@) == distinct(texts(list@)),
        texts(names@).no_duplicates(),
{
    let mut list = list;
    let ghost given = texts(list@);
    let mut names: Vec<String> = Vec::new();
    let mut taken: usize = 0;
    let total: usize = list.len();
    assert(texts(names@) =~= distinct(given.subrange(0, 0)));
    while list.len() > 0
        invariant
            taken + list.len() == total,
            total == given.len(),
            texts(list@) == given.subrange(taken as int, total as int),
            texts(names@) == distinct(given.subrange(0, taken as int)),
        decreases list.len(),
    {
        let ghost rest = list@;
        let name = list.remove(0);
        proof {
            assert(name@ == texts(rest)[0]);
            assert(texts(rest)[0] == given[taken as int]);
            assert forall|k: int| 0 <= k < list@.len() implies texts(list@)[k] == given[taken + 1 + k] by {
                assert(list@[k] == rest[k + 1]);
                assert(texts(rest)[k + 1] == rest[k + 1]@);
            }
            assert(texts(list@) =~= given.subrange(taken + 1, total as int));
            assert(given.subrange(0, taken + 1).drop_last() =~= given.subrange(0, taken as int));
            assert(given.subrange(0, taken + 1).last() == name@);
        }
        if !lists(&names, &name) {
            let ghost before = texts(names@);
            names.push(name);
            assert(texts(names@) =~= before.push(name@));
        }
        taken += 1;
    }
    proof {
        assert(given.subrange(0, total as int) =~= given);
        lemma_distinct(given);
    }
    names
}

} // verus!
