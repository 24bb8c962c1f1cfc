//! What a payload does to the response around it.

use super::flags::{ExtraFlag, ExtraFlags, FlagView, HeaderType};
use crate::headers::{
    has_room, header_map_values, headers_append, headers_insert, remove_header,
    try_append_header, try_insert_header, Headers,
};
use crate::status::StatusCode;
use http::header::{HeaderMap, HeaderValue};
use vstd::prelude::*;

verus! {

/// What becomes of the body.
#[derive(Clone, Copy, Debug, PartialEq, Eq, Structural)]
pub enum BodyEffect {
    /// there is none: nothing is serialized
    Empty,
    /// it is serialized as usual
    Continue,
}

/// The header map cannot take another header.
#[derive(Clone, Copy, Debug, PartialEq, Eq, Structural)]
pub struct HeaderMapFull;

/// The effects of a payload on body, status and headers.
pub trait Effects {
    /// Whether the response is sent without a body.
    spec fn clears_body(&self) -> bool;

    /// The status that takes the place of the usual one, if any does.
    spec fn status_override(&self) -> Option<StatusCode>;

    /// The headers of the response, from those that the assembly has set.
    spec fn headers_after(&self, before: Headers) -> Headers;

    /// Whether a map that holds `before` is sure to take every header that
    /// this sets.
    spec fn headers_fit(&self, before: Headers) -> bool;

    /// Empties `body` and says so, or leaves it as it is and asks for the
    /// usual serialization.
    fn body_effect(&self, body: &mut Vec<u8>) -> (r: BodyEffect)
        ensures
            r == (if self.clears_body() {
                BodyEffect::Empty
            } else {
                BodyEffect::Continue
            }),
            final(body)@ == (if self.clears_body() {
                Seq::<u8>::empty()
            } else {
                old(body)@
            }),
    ;

    /// The status to answer with in place of the usual one.
    fn status_effect(&self) -> (r: Option<StatusCode>)
        ensures
            r == self.status_override(),
    ;

    /// Changes the headers. Fails where the map can take no more, and then
    /// leaves in it what had been done. It does not fail where the headers
    /// fit.
    fn headers_effect(&self, header_map: &mut HeaderMap<HeaderValue>) -> (r: Result<
        (),
        HeaderMapFull,
    >)
        ensures
            r is Ok ==> header_map_values(*final(header_map)) == self.headers_after(
                header_map_values(*old(header_map)),
            ),
            self.headers_fit(header_map_values(*old(header_map))) ==> r is Ok,
    ;
}

/// A payload without effects: the body is serialized, and status and headers
/// stay as the assembly sets them.
pub trait PlainBody {

}

impl<T: PlainBody> Effects for T {
    open spec fn clears_body(&self) -> bool {
        false
    }

    open spec fn status_override(&self) -> Option<StatusCode> {
        None
    }

    open spec fn headers_after(&self, before: Headers) -> Headers {
        before
    }

    open spec fn headers_fit(&self, before: Headers) -> bool {
        true
    }

    fn body_effect(&self, body: &mut Vec<u8>) -> (r: BodyEffect) {
        BodyEffect::Continue
    }

    fn status_effect(&self) -> (r: Option<StatusCode>) {
        None
    }

    fn headers_effect(&self, header_map: &mut HeaderMap<HeaderValue>) -> (r: Result<
        (),
        HeaderMapFull,
    >)
        ensures
            r is Ok,
    {
        Ok(())
    }
}

impl PlainBody for () {

}

impl PlainBody for bool {

}

impl PlainBody for u32 {

}

impl PlainBody for u64 {

}

impl PlainBody for i32 {

}

impl PlainBody for i64 {

}

impl PlainBody for String {

}

/// Whether one of `flags` asks for an empty body.
pub open spec fn has_empty_body(flags: Seq<FlagView>) -> bool {
    exists|i: int| 0 <= i < flags.len() && flags[i] is EmptyBody
}

/// The status that the last status directive of `flags` sets, if there is
/// one.
pub open spec fn last_status(flags: Seq<FlagView>) -> Option<StatusCode>
    decreases flags.len(),
{
    if flags.len() == 0 {
        None
    } else {
        match flags.last() {
            FlagView::SetStatus(status) => Some(status),
            _ => last_status(flags.drop_last()),
        }
    }
}

/// `headers` without the headers that `flags` take away.
pub open spec fn headers_removed(flags: Seq<FlagView>, headers: Headers) -> Headers
    decreases flags.len(),
{
    if flags.len() == 0 {
        headers
    } else {
        let before = headers_removed(flags.drop_last(), headers);
        match flags.last() {
            FlagView::RemoveHeader(name) => before.remove(name),
            _ => before,
        }
    }
}

/// `headers` with the headers that `flags` set, each directive in its turn.
pub open spec fn headers_set(flags: Seq<FlagView>, headers: Headers) -> Headers
    decreases flags.len(),
{
    if flags.len() == 0 {
        headers
    } else {
        let before = headers_set(flags.drop_last(), headers);
        match flags.last() {
            FlagView::SetHeader(name, value, HeaderType::Insert) => headers_insert(
                before,
                name,
                value,
            ),
            FlagView::SetHeader(name, value, HeaderType::Append) => headers_append(
                before,
                name,
                value,
            ),
            _ => before,
        }
    }
}

/// The headers that `flags` leave: first every removal, then every setting,
/// each group in the order of the directives.
pub open spec fn headers_flagged(flags: Seq<FlagView>, headers: Headers) -> Headers {
    headers_set(flags, headers_removed(flags, headers))
}

/// Whether `after` is what `flags` leave of `before` when the map refuses
/// the directive at `k`: every removal is done, and every setting before
/// `k`.
pub open spec fn headers_stop_at(
    flags: Seq<FlagView>,
    before: Headers,
    after: Headers,
    k: int,
) -> bool {
    &&& 0 <= k < flags.len()
    &&& flags[k] is SetHeader
    &&& after == headers_set(flags.take(k), headers_removed(flags, before))
}

/// Whether `after` is what `flags` leave of `before` when the map refuses
/// one of their settings.
pub open spec fn headers_cut_short(flags: Seq<FlagView>, before: Headers, after: Headers) -> bool {
    exists|k: int| #[trigger] headers_stop_at(flags, before, after, k)
}

/// To take a header away, insert a value for it and append another leaves
/// that header with these two values, in this order, whatever it held, and
/// every other header as it was.
pub proof fn lemma_replace_header(before: Headers, name: Seq<u8>, first: Seq<u8>, second: Seq<u8>)
    ensures
        ({
            let flags = seq![
                FlagView::RemoveHeader(name),
                FlagView::SetHeader(name, first, HeaderType::Insert),
                FlagView::SetHeader(name, second, HeaderType::Append),
            ];
            let after = headers_flagged(flags, before);
            &&& after.dom().contains(name)
            &&& after[name] == seq![first, second]
            &&& forall|other: Seq<u8>|
                other != name ==> (after.dom().contains(other) <==> before.dom().contains(other))
            &&& forall|other: Seq<u8>|
                other != name && before.dom().contains(other) ==> after[other] == before[other]
        }),
{
    let flags = seq![
        FlagView::RemoveHeader(name),
        FlagView::SetHeader(name, first, HeaderType::Insert),
        FlagView::SetHeader(name, second, HeaderType::Append),
    ];
    let two = flags.drop_last();
    let one = two.drop_last();
    assert(one.drop_last().len() == 0);
    reveal_with_fuel(headers_removed, 4);
    reveal_with_fuel(headers_set, 4);
    let cleared = headers_removed(flags, before);
    assert(cleared == before.remove(name));
    let inserted = headers_set(two, cleared);
    assert(inserted == headers_insert(cleared, name, first));
    assert(seq![first].push(second) == seq![first, second]);
}

/// Of the status directives the last one decides.
pub proof fn lemma_last_status_wins(flags: Seq<FlagView>, status: StatusCode)
    ensures
        last_status(flags.push(FlagView::SetStatus(status))) == Some(status),
{
    assert(flags.push(FlagView::SetStatus(status)).last() == FlagView::SetStatus(status));
}

impl Effects for ExtraFlags {
    open spec fn clears_body(&self) -> bool {
        has_empty_body(self@)
    }

    open spec fn status_override(&self) -> Option<StatusCode> {
        last_status(self@)
    }

    open spec fn headers_after(&self, before: Headers) -> Headers {
        headers_flagged(self@, before)
    }

    open spec fn headers_fit(&self, before: Headers) -> bool {
        has_room(before, self@.len())
    }

    fn body_effect(&self, body: &mut Vec<u8>) -> (r: BodyEffect) {
        let mut i: usize = 0;
        while i < self.flags.len()
            invariant
                i <= self.flags.len(),
                forall|k: int| 0 <= k < i ==> !(self@[k] is EmptyBody),
                body@ == old(body)@,
            decreases self.flags.len() - i,
        {
            if let ExtraFlag::EmptyBody = &self.flags[i] {
                assert(self@[i as int] is EmptyBody);
                body.clear();
                return BodyEffect::Empty;
            }
            i += 1;
        }
        BodyEffect::Continue
    }

    fn status_effect(&self) -> (r: Option<StatusCode>) {
        let mut found: Option<StatusCode> = None;
        let mut i: usize = 0;
        while i < self.flags.len()
            invariant
                i <= self.flags.len(),
                found == last_status(self@.take(i as int)),
            decreases self.flags.len() - i,
        {
            let ghost next = self@.take(i as int + 1);
            assert(next.drop_last() == self@.take(i as int));
            assert(next.last() == self@[i as int]);
            if let ExtraFlag::SetStatus(status) = &self.flags[i] {
                found = Some(*status);
            }
            i += 1;
        }
        assert(self@.take(self.flags.len() as int) == self@);
        found
    }

    fn headers_effect(&self, header_map: &mut HeaderMap<HeaderValue>) -> (r: Result<
        (),
        HeaderMapFull,
    >)
        ensures
            r is Err ==> headers_cut_short(
                self@,
                header_map_values(*old(header_map)),
                header_map_values(*final(header_map)),
            ),
    {
        let ghost start = header_map_values(*header_map);
        let mut i: usize = 0;
        while i < self.flags.len()
            invariant
                i <= self.flags.len(),
                header_map_values(*header_map) == headers_removed(self@.take(i as int), start),
                has_room(start, self@.len()) ==> has_room(
                    header_map_values(*header_map),
                    self@.len(),
                ),
            decreases self.flags.len() - i,
        {
            let ghost next = self@.take(i as int + 1);
            assert(next.drop_last() == self@.take(i as int));
            assert(next.last() == self@[i as int]);
            if let ExtraFlag::RemoveHeader(name) = &self.flags[i] {
                remove_header(header_map, name);
            }
            i += 1;
        }
        assert(self@.take(self.flags.len() as int) == self@);
        let ghost cleared = header_map_values(*header_map);
        let mut j: usize = 0;
        while j < self.flags.len()
            invariant
                j <= self.flags.len(),
                start == header_map_values(*old(header_map)),
                cleared == headers_removed(self@, start),
                header_map_values(*header_map) == headers_set(self@.take(j as int), cleared),
                has_room(start, self@.len()) ==> has_room(
                    header_map_values(*header_map),
                    (self@.len() - j) as nat,
                ),
            decreases self.flags.len() - j,
        {
            let ghost next = self@.take(j as int + 1);
            assert(next.drop_last() == self@.take(j as int));
            assert(next.last() == self@[j as int]);
            if let ExtraFlag::SetHeader(name, value, ty) = &self.flags[j] {
                let value = value.clone();
                let full = match ty {
                    HeaderType::Insert => try_insert_header(header_map, name, value).is_err(),
                    HeaderType::Append => try_append_header(header_map, name, value).is_err(),
                };
                if full {
                    assert(headers_stop_at(
                        self@,
                        start,
                        header_map_values(*header_map),
                        j as int,
                    ));
                    return Err(HeaderMapFull);
                }
            }
            j += 1;
        }
        assert(self@.take(self.flags.len() as int) == self@);
        Ok(())
    }
}

} // verus!
