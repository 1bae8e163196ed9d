//! Enumerating the tags of a repository straight from the object store, by
//! a listing that comes back one page at a time.
use vstd::prelude::*;
use vstd::string::*;

use crate::keys::{tags_prefix, tags_prefix_spec};
use crate::text::{ends_with, find_char, has_prefix, has_suffix, head_before, lemma_first_index, starts_with};

verus! {

/// The tag that a listed key designates, when the key is the link object of
/// a tag directly below `prefix`.
pub open spec fn tag_of_key(prefix: Seq<char>, key: Seq<char>) -> Option<Seq<char>> {
    let sfx = "/current/link"@;
    if has_prefix(key, prefix + "/"@) && has_suffix(key, sfx) && prefix.len() + 1 + sfx.len()
        <= key.len() {
        let body = key.subrange(prefix.len() + 1int, key.len() - sfx.len());
        let tag = head_before(body, '/');
        if tag.len() > 0 {
            Some(tag)
        } else {
            None
        }
    } else {
        None
    }
}

/// The tags designated by `keys`, in listing order.
pub open spec fn tags_of_keys(prefix: Seq<char>, keys: Seq<Seq<char>>) -> Seq<Seq<char>>
    decreases keys.len(),
{
    if keys.len() == 0 {
        Seq::empty()
    } else {
        let rest = tags_of_keys(prefix, keys.drop_last());
        match tag_of_key(prefix, keys.last()) {
            Some(t) => rest.push(t),
            None => rest,
        }
    }
}

/// The keys of several listing pages, one page after another.
pub open spec fn keys_of_pages(pages: Seq<Seq<Seq<char>>>) -> Seq<Seq<char>>
    decreases pages.len(),
{
    if pages.len() == 0 {
        Seq::empty()
    } else {
        keys_of_pages(pages.drop_last()) + pages.last()
    }
}

pub open spec fn strings_view(v: Seq<String>) -> Seq<Seq<char>> {
    v.map_values(|s: String| s@)
}

/// Where the key list is cut into pages does not change which tags are found.
pub proof fn lemma_tags_of_keys_split(prefix: Seq<char>, a: Seq<Seq<char>>, b: Seq<Seq<char>>)
    ensures
        tags_of_keys(prefix, a + b) == tags_of_keys(prefix, a) + tags_of_keys(prefix, b),
    decreases b.len(),
{
    if b.len() == 0 {
        assert(a + b =~= a);
        assert(tags_of_keys(prefix, a) + tags_of_keys(prefix, b) =~= tags_of_keys(prefix, a));
    } else {
        assert((a + b).drop_last() =~= a + b.drop_last());
        assert((a + b).last() == b.last());
        lemma_tags_of_keys_split(prefix, a, b.drop_last());
        match tag_of_key(prefix, b.last()) {
            Some(t) => {
                assert(tags_of_keys(prefix, a) + tags_of_keys(prefix, b) =~= (tags_of_keys(prefix, a)
                    + tags_of_keys(prefix, b.drop_last())).push(t));
            },
            None => {},
        }
    }
}

/// The tag that `key` designates below `prefix`, if any.
pub fn tag_from_key(prefix: &str, key: &str) -> (r: Option<String>)
    ensures
        match r {
            Some(t) => tag_of_key(prefix@, key@) == Some(t@),
            None => tag_of_key(prefix@, key@) is None,
        },
{
    let sfx = "/current/link";
    let mut dir = String::from_str(prefix);
    dir.append("/");
    let n = prefix.unicode_len();
    let m = key.unicode_len();
    let s = sfx.unicode_len();
    proof {
        reveal_strlit("/");
    }
    if !starts_with(key, dir.as_str()) || !ends_with(key, sfx) || m - n <= s {
        return None;
    }
    let body = key.substring_char(n + 1, m - s);
    let tag = match find_char(body, '/') {
        Some(i) => {
            proof {
                lemma_first_index(body@, '/', i as int);
            }
            body.substring_char(0, i)
        },
        None => body,
    };
    if tag.unicode_len() == 0 {
        None
    } else {
        Some(String::from_str(tag))
    }
}

/// The cache's tag list, when it may answer: an empty list says nothing
/// about the repository and sends the caller to the object store.
pub fn tags_from_cache(cached: Option<Vec<String>>) -> (r: Option<Vec<String>>)
    ensures
        match cached {
            Some(v) => if v@.len() > 0 {
                r == Some(v)
            } else {
                r is None
            },
            None => r is None,
        },
{
    match cached {
        Some(v) => if v.len() > 0 {
            Some(v)
        } else {
            None
        },
        None => None,
    }
}

/// One request for a page of the listing.
#[derive(Clone, Debug, PartialEq, Eq)]
pub struct ListRequest {
    pub prefix: String,
    pub continuation_token: Option<String>,
}

/// One page of the listing, as the object store returned it.
#[derive(Clone, Debug, PartialEq, Eq)]
pub struct ListPage {
    pub keys: Vec<String>,
    pub is_truncated: Option<bool>,
    pub next_token: Option<String>,
}

impl ListPage {
    pub open spec fn keys_view(&self) -> Seq<Seq<char>> {
        strings_view(self.keys@)
    }

    /// Whether the store reports that no page follows this one.
    pub open spec fn is_last(&self) -> bool {
        self.is_truncated == Some(false) || self.next_token is None
    }
}

/// A tag scan in progress: the listing prefix, the tags found so far,
/// where the next page starts, and the keys of the pages read so far.
#[derive(Clone)]
pub struct TagScan {
    pub prefix: String,
    pub tags: Vec<String>,
    pub token: Option<String>,
    pub finished: bool,
    pub read: Ghost<Seq<Seq<Seq<char>>>>,
}

impl TagScan {
    pub open spec fn tags_view(&self) -> Seq<Seq<char>> {
        strings_view(self.tags@)
    }

    /// The tags found are exactly those of all keys read, in listing order,
    /// whatever the page boundaries were.
    pub open spec fn wf(&self) -> bool {
        self.tags_view() == tags_of_keys(self.prefix@, keys_of_pages(self.read@))
    }

    /// A scan of the tags of `repo` that has read no page yet.
    pub fn new(repo: &str) -> (r: TagScan)
        ensures
            r.prefix@ == tags_prefix_spec(repo@),
            r.tags_view() == Seq::<Seq<char>>::empty(),
            r.token is None,
            !r.finished,
            r.read@ == Seq::<Seq<Seq<char>>>::empty(),
            r.wf(),
    {
        let r = TagScan {
            prefix: tags_prefix(repo),
            tags: Vec::new(),
            token: None,
            finished: false,
            read: Ghost(Seq::empty()),
        };
        assert(r.tags_view() =~= Seq::<Seq<char>>::empty());
        r
    }

    /// The next page to ask for, or `None` once the last page was read.
    pub fn next_request(&self) -> (r: Option<ListRequest>)
        ensures
            self.finished ==> r is None,
            !self.finished ==> (r matches Some(q) && q.prefix@ == self.prefix@
                && q.continuation_token == self.token),
    {
        if self.finished {
            None
        } else {
            Some(ListRequest { prefix: self.prefix.clone(), continuation_token: self.token.clone() })
        }
    }

    /// Takes in one page: its tags are appended, and the scan either
    /// finishes or continues from the page's continuation token.
    pub fn absorb(&mut self, page: &ListPage)
        requires
            !old(self).finished,
            old(self).wf(),
        ensures
            final(self).wf(),
            final(self).read@ == old(self).read@.push(page.keys_view()),
            final(self).prefix@ == old(self).prefix@,
            final(self).tags_view() == old(self).tags_view() + tags_of_keys(
                old(self).prefix@,
                page.keys_view(),
            ),
            final(self).finished == page.is_last(),
            final(self).token == page.next_token,
    {
        let mut i: usize = 0;
        let ghost start = self.tags_view();
        while i < page.keys.len()
            invariant
                i <= page.keys@.len(),
                self.prefix@ == old(self).prefix@,
                self.read@ == old(self).read@,
                start == old(self).tags_view(),
                self.tags_view() == start + tags_of_keys(
                    self.prefix@,
                    page.keys_view().subrange(0, i as int),
                ),
            decreases page.keys@.len() - i,
        {
            let found = tag_from_key(self.prefix.as_str(), page.keys[i].as_str());
            let ghost sub = page.keys_view().subrange(0, i + 1);
            assert(sub.drop_last() =~= page.keys_view().subrange(0, i as int));
            assert(sub.last() == page.keys@[i as int]@);
            match found {
                Some(t) => {
                    let ghost before = self.tags_view();
                    let ghost tv = t@;
                    assert(tags_of_keys(self.prefix@, sub) == tags_of_keys(
                        self.prefix@,
                        sub.drop_last(),
                    ).push(tv));
                    self.tags.push(t);
                    assert(self.tags_view() =~= before.push(tv));
                    assert(self.tags_view() =~= start + tags_of_keys(self.prefix@, sub));
                },
                None => {
                    assert(tags_of_keys(self.prefix@, sub) == tags_of_keys(
                        self.prefix@,
                        sub.drop_last(),
                    ));
                },
            }
            i = i + 1;
        }
        assert(page.keys_view().subrange(0, i as int) =~= page.keys_view());
        let ghost read = old(self).read@.push(page.keys_view());
        proof {
            assert(read.drop_last() =~= old(self).read@);
            lemma_tags_of_keys_split(self.prefix@, keys_of_pages(old(self).read@), page.keys_view());
        }
        self.read = Ghost(read);
        self.token = page.next_token.clone();
        self.finished = match page.is_truncated {
            Some(t) => !t,
            None => false,
        } || self.token.is_none();
    }
}

} // verus!
