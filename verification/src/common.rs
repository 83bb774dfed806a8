//! Common response shapes shared across the API surface.

use vstd::prelude::*;

verus! {

/// JSON values cross this library as opaque payloads: the contracts here
/// never look inside one.
#[verifier::external_type_specification]
#[verifier::external_body]
pub struct ExJsonValue(serde_json::Value);

/// No two entries of the association list share a key.
pub open spec fn distinct_keys<V>(entries: Seq<(String, V)>) -> bool {
    forall|i: int, j: int| 0 <= i < j < entries.len() ==> entries[i].0@ != entries[j].0@
}

/// The value stored under `key`, scanning from the front.
pub open spec fn assoc_lookup<V>(entries: Seq<(String, V)>, key: Seq<char>) -> Option<V>
    decreases entries.len(),
{
    if entries.len() == 0 {
        None
    } else if entries[0].0@ == key {
        Some(entries[0].1)
    } else {
        assoc_lookup(entries.drop_first(), key)
    }
}

/// A borrowed view of the value stored under `key`, if any.
pub fn assoc_get<'a, V>(entries: &'a Vec<(String, V)>, key: &String) -> (r: Option<&'a V>)
    ensures
        match r {
            Some(v) => assoc_lookup(entries@, key@) == Some(*v),
            None => assoc_lookup(entries@, key@) is None,
        },
{
    let n = entries.len();
    let mut i: usize = 0;
    proof {
        assert(entries@.skip(0) =~= entries@);
    }
    while i < n
        invariant
            i <= n == entries@.len(),
            assoc_lookup(entries@, key@) == assoc_lookup(entries@.skip(i as int), key@),
        decreases n - i,
    {
        proof {
            assert(entries@.skip(i as int)[0] == entries@[i as int]);
            assert(entries@.skip(i as int).drop_first() =~= entries@.skip(i as int + 1));
        }
        if entries[i].0 == *key {
            return Some(&entries[i].1);
        }
        i = i + 1;
    }
    proof {
        assert(entries@.skip(n as int) =~= Seq::<(String, V)>::empty());
    }
    None
}

/// Store `value` under `key`: replace the entry holding `key`, or push a new
/// one at the end.  Keeps keys distinct.
pub fn assoc_set<V>(entries: &mut Vec<(String, V)>, key: String, value: V)
    requires
        distinct_keys(old(entries)@),
    ensures
        distinct_keys(final(entries)@),
        assoc_lookup(final(entries)@, key@) == Some(value),
        forall|k: Seq<char>| k != key@ ==> assoc_lookup(final(entries)@, k) == assoc_lookup(
            old(entries)@,
            k,
        ),
        (exists|i: int|
            0 <= i < old(entries)@.len() && old(entries)@[i].0@ == key@
                && final(entries)@ == old(entries)@.update(i, (key, value))) || (assoc_lookup(
            old(entries)@,
            key@,
        ) is None && final(entries)@ == old(entries)@.push((key, value))),
{
    let n = entries.len();
    let mut i: usize = 0;
    while i < n
        invariant
            i <= n == entries@.len(),
            distinct_keys(entries@),
            entries@ == old(entries)@,
            forall|j: int| 0 <= j < i ==> entries@[j].0@ != key@,
        decreases n - i,
    {
        if entries[i].0 == key {
            let ghost before = entries@;
            entries[i] = (key, value);
            proof {
                assert(entries@ == before.update(i as int, (key, value)));
                lemma_assoc_update(before, entries@, i as int, key@, value);
            }
            return ;
        }
        i = i + 1;
    }
    let ghost before = entries@;
    entries.push((key, value));
    proof {
        assert(forall|j: int| 0 <= j < before.len() ==> before[j].0@ != key@);
        lemma_assoc_absent(before, key@);
        lemma_assoc_push(before, (key, value));
    }
}

/// A key held by no entry looks up to nothing.
proof fn lemma_assoc_absent<V>(entries: Seq<(String, V)>, key: Seq<char>)
    requires
        forall|j: int| 0 <= j < entries.len() ==> entries[j].0@ != key,
    ensures
        assoc_lookup(entries, key) is None,
    decreases entries.len(),
{
    if entries.len() > 0 {
        assert(entries.drop_first() =~= entries.skip(1));
        lemma_assoc_absent(entries.drop_first(), key);
    }
}

/// Pushing a fresh entry adds its key and leaves every other key alone.
proof fn lemma_assoc_push<V>(entries: Seq<(String, V)>, e: (String, V))
    requires
        forall|j: int| 0 <= j < entries.len() ==> entries[j].0@ != e.0@,
    ensures
        assoc_lookup(entries.push(e), e.0@) == Some(e.1),
        forall|k: Seq<char>| k != e.0@ ==> #[trigger] assoc_lookup(entries.push(e), k)
            == assoc_lookup(entries, k),
    decreases entries.len(),
{
    if entries.len() == 0 {
        assert(entries.push(e)[0] == e);
        assert(entries.push(e).drop_first() =~= Seq::<(String, V)>::empty());
        assert forall|k: Seq<char>| k != e.0@ implies #[trigger] assoc_lookup(entries.push(e), k)
            == assoc_lookup(entries, k) by {
            assert(assoc_lookup(entries.push(e), k) == assoc_lookup(
                entries.push(e).drop_first(),
                k,
            ));
        }
    } else {
        assert(entries.push(e)[0] == entries[0]);
        assert(entries.push(e).drop_first() =~= entries.drop_first().push(e));
        lemma_assoc_push(entries.drop_first(), e);
        assert forall|k: Seq<char>| k != e.0@ implies #[trigger] assoc_lookup(entries.push(e), k)
            == assoc_lookup(entries, k) by {
            if entries[0].0@ != k {
                assert(assoc_lookup(entries.push(e), k) == assoc_lookup(
                    entries.drop_first().push(e),
                    k,
                ));
            }
        }
    }
}

/// Updating the entry that holds `key` (keys being distinct) rebinds that
/// key and leaves every other key alone.
proof fn lemma_assoc_update<V>(
    before: Seq<(String, V)>,
    after: Seq<(String, V)>,
    i: int,
    key: Seq<char>,
    value: V,
)
    requires
        distinct_keys(before),
        0 <= i < before.len(),
        before[i].0@ == key,
        after.len() == before.len(),
        after[i].0@ == key,
        after[i].1 == value,
        forall|j: int| 0 <= j < before.len() && j != i ==> after[j] == before[j],
    ensures
        distinct_keys(after),
        assoc_lookup(after, key) == Some(value),
        forall|k: Seq<char>| k != key ==> assoc_lookup(after, k) == assoc_lookup(before, k),
    decreases before.len(),
{
    assert forall|p: int, q: int| 0 <= p < q < after.len() implies after[p].0@ != after[q].0@ by {
        if p != i && q != i {
            assert(after[p] == before[p] && after[q] == before[q]);
        } else if p == i {
            assert(after[q] == before[q] && before[q].0@ != before[i].0@);
        } else {
            assert(after[p] == before[p] && before[p].0@ != before[i].0@);
        }
    }
    if i == 0 {
        assert(assoc_lookup(after, key) == Some(value));
        assert forall|k: Seq<char>| k != key implies assoc_lookup(after, k) == assoc_lookup(
            before,
            k,
        ) by {
            assert(after.drop_first() =~= before.drop_first());
        }
    } else {
        let b1 = before.drop_first();
        let a1 = after.drop_first();
        assert forall|p: int, q: int| 0 <= p < q < b1.len() implies b1[p].0@ != b1[q].0@ by {
            assert(b1[p] == before[p + 1]);
            assert(b1[q] == before[q + 1]);
        }
        assert(a1[i - 1] == after[i]);
        assert(b1[i - 1] == before[i]);
        assert forall|j: int| 0 <= j < b1.len() && j != i - 1 implies a1[j] == b1[j] by {
            assert(a1[j] == after[j + 1]);
            assert(b1[j] == before[j + 1]);
        }
        lemma_assoc_update(b1, a1, i - 1, key, value);
        assert(before[0].0@ != key);
        assert(after[0] == before[0]);
        assert forall|k: Seq<char>| k != key implies assoc_lookup(after, k) == assoc_lookup(
            before,
            k,
        ) by {
            if before[0].0@ != k {
                assert(assoc_lookup(after, k) == assoc_lookup(a1, k));
                assert(assoc_lookup(before, k) == assoc_lookup(b1, k));
            }
        }
    }
}

/// Generic API response wrapper.
#[derive(Debug, Clone)]
pub struct ApiResponse<T> {
    /// The response data.
    pub data: T,
}

/// Paginated response structure.  `next` and `previous` are full request
/// targets handed back verbatim as the next request's target.
#[derive(Debug, Clone)]
pub struct PaginatedResponse<T> {
    /// The results for this page.
    pub results: Vec<T>,
    /// Request target for the next page, if there is one.
    pub next: Option<String>,
    /// Request target for the previous page, if there is one.
    pub previous: Option<String>,
}

impl<T> PaginatedResponse<T> {
    /// Whether there are more pages.
    pub fn has_next(&self) -> (r: bool)
        ensures
            r == (self.next is Some),
    {
        self.next.is_some()
    }

    /// Whether there are previous pages.
    pub fn has_previous(&self) -> (r: bool)
        ensures
            r == (self.previous is Some),
    {
        self.previous.is_some()
    }

    /// The number of results in this page.
    pub fn len(&self) -> (n: usize)
        ensures
            n == self.results@.len(),
    {
        self.results.len()
    }

    /// Whether this page is empty.
    pub fn is_empty(&self) -> (r: bool)
        ensures
            r == (self.results@.len() == 0),
    {
        self.results.len() == 0
    }
}

/// Hardware configuration for running models.
#[derive(Debug, Clone)]
pub struct Hardware {
    /// Hardware identifier.
    pub sku: String,
    /// Human-readable name.
    pub name: String,
}

/// Model version metadata.
#[derive(Debug, Clone)]
pub struct ModelVersion {
    /// Version ID.
    pub id: String,
    /// When this version was created.
    pub created_at: String,
    /// Cog version used.
    pub cog_version: Option<String>,
    /// OpenAPI schema for the model, kept opaque.
    pub openapi_schema: Option<serde_json::Value>,
}

/// Basic model information.
#[derive(Debug, Clone)]
pub struct Model {
    /// Model owner.
    pub owner: String,
    /// Model name.
    pub name: String,
    /// Model description.
    pub description: Option<String>,
    /// Model visibility.
    pub visibility: String,
    /// Repository URL.
    pub github_url: Option<String>,
    /// Paper URL.
    pub paper_url: Option<String>,
    /// License URL.
    pub license_url: Option<String>,
    /// Cover image URL.
    pub cover_image_url: Option<String>,
    /// Latest version.
    pub latest_version: Option<ModelVersion>,
}

impl Model {
    /// The full model identifier: owner and name joined by a slash.
    pub fn identifier(&self) -> (r: String)
        ensures
            r@ == self.owner@ + "/"@ + self.name@,
    {
        let mut s = self.owner.clone();
        s.append("/");
        s.append(self.name.as_str());
        s
    }
}

} // verus!
