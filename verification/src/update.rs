//! The check for a newer release of the program.

use crate::text::{chars_of, decimal};
use crate::version::{
    decimal_is_read_back, first_difference_decides, is_later, later, later_is_a_strict_order,
    parse_version, three_numbers_are_read_back, version_of,
};
use vstd::prelude::*;

verus! {

/// What the check found.
pub struct UpdateInfo {
    /// Whether the latest release is later than the running version.
    pub has_update: bool,
    pub current: String,
    pub latest: String,
    /// The page of the latest release.
    pub download_url: String,
}

/// The mathematical reading of [`UpdateInfo`].
pub struct UpdateView {
    pub has_update: bool,
    pub current: Seq<char>,
    pub latest: Seq<char>,
    pub download_url: Seq<char>,
}

impl View for UpdateInfo {
    type V = UpdateView;

    open spec fn view(&self) -> UpdateView {
        UpdateView {
            has_update: self.has_update,
            current: self.current@,
            latest: self.latest@,
            download_url: self.download_url@,
        }
    }
}

/// A release tag without the letters v in front.
pub open spec fn strip_v(tag: Seq<char>) -> Seq<char>
    decreases tag.len(),
{
    if tag.len() > 0 && tag[0] == 'v' {
        strip_v(tag.drop_first())
    } else {
        tag
    }
}

/// A release tag without the letters v in front.
pub fn release_version(tag: &str) -> (r: String)
    ensures
        r@ == strip_v(tag@),
{
    let x = chars_of(tag);
    let mut i: usize = 0;
    assert(tag@.subrange(0, tag@.len() as int) =~= tag@);
    while i < x.len() && x[i] == 'v'
        invariant
            x@ == tag@,
            i <= x.len(),
            strip_v(tag@) == strip_v(tag@.subrange(i as int, tag@.len() as int)),
        decreases x.len() - i,
    {
        assert(tag@.subrange(i as int, tag@.len() as int).drop_first() =~= tag@.subrange(
            i + 1,
            tag@.len() as int,
        ));
        i += 1;
    }
    tag.substring_char(i, x.len()).to_owned()
}

/// How the running version compares to a latest release with this tag and this
/// page.
pub open spec fn comparison(current: Seq<char>, tag: Seq<char>, url: Seq<char>) -> UpdateView {
    let latest = strip_v(tag);
    UpdateView {
        has_update: later(version_of(latest), version_of(current)),
        current,
        latest,
        download_url: url,
    }
}

/// How the running version compares to a latest release with this tag and this
/// page.
pub fn compare_release(current: &str, tag: &str, url: String) -> (r: UpdateInfo)
    ensures
        r@ == comparison(current@, tag@, url@),
        r.current@ == current@,
        r.download_url@ == url@,
        r.latest@ == strip_v(tag@),
{
    let latest = release_version(tag);
    let a = parse_version(latest.as_str());
    let b = parse_version(current);
    UpdateInfo {
        has_update: is_later(&a, &b),
        current: current.to_owned(),
        latest,
        download_url: url,
    }
}

/// What is found where the release page cannot be had: no update, and the
/// running version for the latest one.
pub open spec fn nothing_found(current: Seq<char>) -> UpdateView {
    UpdateView { has_update: false, current, latest: current, download_url: Seq::empty() }
}

/// Whether an HTTP status reports success.
pub fn is_success(status: u16) -> (r: bool)
    ensures
        r == (200 <= status < 300),
{
    200 <= status && status < 300
}

/// A JSON value.
#[verifier::external_type_specification]
#[verifier::external_body]
pub struct ExJsonValue(serde_json::Value);

/// The reason why bytes are no JSON text.
#[verifier::external_type_specification]
#[verifier::external_body]
pub struct ExJsonError(serde_json::Error);

/// The members of a JSON object whose values are strings, with these strings.
/// A value that is no object has none.
pub uninterp spec fn text_members(value: serde_json::Value) -> Map<Seq<char>, Seq<char>>;

/// The text members of the value that `serde_json::from_slice` reads from bytes;
/// `None` where it reads none.
pub uninterp spec fn decoded_members(body: Seq<u8>) -> Option<Map<Seq<char>, Seq<char>>>;

/// `serde_json::from_slice`, for a value of any shape: it reads the value that
/// the bytes stand for, or fails. Which, and with which text members, depends on
/// the bytes alone.
#[verifier::external_body]
fn decode_json(body: &[u8]) -> (r: Result<serde_json::Value, serde_json::Error>)
    ensures
        r is Ok <==> decoded_members(body@) is Some,
        r matches Ok(value) ==> decoded_members(body@) == Some(text_members(value)),
{
    serde_json::from_slice(body)
}

/// Indexing a `serde_json::Value` with a key, and `Value::as_str`: the member
/// under this key where it is a string, and nothing where there is no such member
/// or it is something else.
#[verifier::external_body]
fn text_member(value: &serde_json::Value, key: &str) -> (r: Option<String>)
    ensures
        r is Some <==> text_members(*value).contains_key(key@),
        r matches Some(text) ==> text@ == text_members(*value)[key@],
{
    value[key].as_str().map(String::from)
}

/// The text under `key`, or nothing at all.
pub open spec fn member_or_empty(members: Map<Seq<char>, Seq<char>>, key: Seq<char>) -> Seq<char> {
    if members.contains_key(key) {
        members[key]
    } else {
        Seq::empty()
    }
}

/// The check for an update: `status` and `body` are the answer to the request
/// for the latest release.
pub fn check_update(current: &str, status: u16, body: &[u8]) -> (r: Result<UpdateInfo, String>)
    ensures
        !(200 <= status < 300) ==> (r matches Ok(info) && info@ == nothing_found(current@)),
        200 <= status < 300 ==> match decoded_members(body@) {
            Some(members) => r matches Ok(info) && info@ == comparison(
                current@,
                member_or_empty(members, "tag_name"@),
                member_or_empty(members, "html_url"@),
            ),
            None => r matches Err(message) && message@ == "error decoding response body"@,
        },
        !(200 <= status < 300) ==> (r matches Ok(info) && !info.has_update && info.current@
            == current@ && info.latest@ == current@ && info.download_url@.len() == 0),
        200 <= status < 300 ==> (decoded_members(body@) matches Some(members) ==> (r matches Ok(
            info,
        ) && info.current@ == current@ && (members.contains_key("html_url"@)
            ==> info.download_url@ == members["html_url"@]) && (!members.contains_key("html_url"@)
            ==> info.download_url@.len() == 0) && (members.contains_key("tag_name"@)
            ==> info.latest@ == strip_v(members["tag_name"@])) && (!members.contains_key(
            "tag_name"@,
        ) ==> info.latest@.len() == 0))),
{
    if !is_success(status) {
        return Ok(
            UpdateInfo {
                has_update: false,
                current: current.to_owned(),
                latest: current.to_owned(),
                download_url: String::new(),
            },
        );
    }
    match decode_json(body) {
        Ok(value) => {
            let tag = match text_member(&value, "tag_name") {
                Some(text) => text,
                None => String::new(),
            };
            let url = match text_member(&value, "html_url") {
                Some(text) => text,
                None => String::new(),
            };
            Ok(compare_release(current, tag.as_str(), url))
        },
        Err(_) => Err("error decoding response body".to_owned()),
    }
}

/// A release is never offered as an update to itself, however many letters v its
/// tag has in front.
pub proof fn no_update_to_itself(current: Seq<char>, tag: Seq<char>, url: Seq<char>)
    requires
        strip_v(tag) == strip_v(current),
        current.len() == 0 || current[0] != 'v',
    ensures
        !comparison(current, tag, url).has_update,
{
    let version = version_of(current);
    later_is_a_strict_order(version, version, version);
}

/// Updates never lead in a circle: where a release is an update to another one,
/// this one is no update to it, and an update to an update is an update.
pub proof fn updates_lead_forward(
    a: Seq<char>,
    b: Seq<char>,
    c: Seq<char>,
    url: Seq<char>,
)
    requires
        strip_v(a) == a,
        strip_v(b) == b,
        strip_v(c) == c,
    ensures
        comparison(a, b, url).has_update ==> !comparison(b, a, url).has_update,
        comparison(a, b, url).has_update && comparison(b, c, url).has_update ==> comparison(
            a,
            c,
            url,
        ).has_update,
{
    later_is_a_strict_order(version_of(b), version_of(a), version_of(b));
    later_is_a_strict_order(version_of(a), version_of(a), version_of(a));
    later_is_a_strict_order(version_of(c), version_of(b), version_of(a));
}

/// The letters v in front of a tag do not matter.
pub proof fn leading_v_does_not_matter(tag: Seq<char>)
    ensures
        strip_v(seq!['v'] + tag) == strip_v(tag),
        strip_v(strip_v(tag)) == strip_v(tag),
    decreases tag.len(),
{
    assert((seq!['v'] + tag).drop_first() =~= tag);
    if tag.len() > 0 && tag[0] == 'v' {
        leading_v_does_not_matter(tag.drop_first());
    }
}

/// Of a tag the letters v in front are cut off, all of them and nothing else.
pub proof fn only_leading_v_is_cut(tag: Seq<char>) -> (n: int)
    ensures
        0 <= n <= tag.len(),
        strip_v(tag) == tag.skip(n),
        forall|k: int| 0 <= k < n ==> #[trigger] tag[k] == 'v',
        n < tag.len() ==> tag[n] != 'v',
    decreases tag.len(),
{
    if tag.len() > 0 && tag[0] == 'v' {
        let rest = tag.drop_first();
        let m = only_leading_v_is_cut(rest);
        assert(rest.skip(m) =~= tag.skip(m + 1));
        assert forall|k: int| 0 <= k < m + 1 implies #[trigger] tag[k] == 'v' by {
            if k > 0 {
                assert(rest[k - 1] == tag[k]);
            }
        }
        if m < rest.len() {
            assert(rest[m] == tag[m + 1]);
        }
        m + 1
    } else {
        assert(tag.skip(0) =~= tag);
        0
    }
}

/// An update is offered exactly if, at the first place where the numbers of the
/// latest release and of the running version differ, the release has the greater
/// number or is the only one that goes on. The running version and the page are
/// handed on as they are.
pub proof fn first_different_number_decides(current: Seq<char>, tag: Seq<char>, url: Seq<char>)
    ensures
        ({
            let found = comparison(current, tag, url);
            let a = version_of(found.latest);
            let b = version_of(current);
            &&& found.current == current && found.download_url == url
            &&& found.latest == strip_v(tag)
            &&& found.has_update <==> exists|k: int|
                0 <= k < a.len() && k <= b.len() && #[trigger] a.take(k) == b.take(k) && (k
                    == b.len() || a[k] > b[k])
        }),
{
    first_difference_decides(version_of(strip_v(tag)), version_of(current));
}

/// Where the running version is the numbers `x`, `y`, `z` and the latest release
/// the numbers `p`, `q`, `w`, each with dots between them, an update is offered
/// exactly if `p` is greater than `x`, or they agree and `q` is greater than `y`,
/// or these agree as well and `w` is greater than `z`; with or without a v in front
/// of the tag.
pub proof fn newer_of_three_numbers_is_offered(
    x: u32,
    y: u32,
    z: u32,
    p: u32,
    q: u32,
    w: u32,
    url: Seq<char>,
)
    ensures
        ({
            let current = decimal(x as nat) + seq!['.'] + decimal(y as nat) + seq!['.'] + decimal(
                z as nat,
            );
            let release = decimal(p as nat) + seq!['.'] + decimal(q as nat) + seq!['.'] + decimal(
                w as nat,
            );
            let newer = p > x || (p == x && q > y) || (p == x && q == y && w > z);
            &&& comparison(current, release, url).has_update == newer
            &&& comparison(current, release, url).latest == release
            &&& comparison(current, seq!['v'] + release, url).has_update == newer
            &&& comparison(current, seq!['v'] + release, url).latest == release
        }),
{
    let release = decimal(p as nat) + seq!['.'] + decimal(q as nat) + seq!['.'] + decimal(
        w as nat,
    );
    decimal_is_read_back(p);
    assert(release[0] == decimal(p as nat)[0]);
    assert(strip_v(release) == release);
    leading_v_does_not_matter(release);
    three_numbers_are_read_back(x, y, z);
    three_numbers_are_read_back(p, q, w);
    let a = seq![p, q, w];
    let b = seq![x, y, z];
    reveal_with_fuel(later, 4);
    assert(a.drop_first() =~= seq![q, w]);
    assert(b.drop_first() =~= seq![y, z]);
    assert(a.drop_first().drop_first() =~= seq![w]);
    assert(b.drop_first().drop_first() =~= seq![z]);
}

/// Where the release page cannot be had, no update is offered, the running version
/// stands for the latest one, and there is no page.
pub proof fn no_page_no_update(current: Seq<char>)
    ensures
        !nothing_found(current).has_update,
        nothing_found(current).current == current,
        nothing_found(current).latest == current,
        nothing_found(current).download_url.len() == 0,
{
}

/// The reading of what was found has each text under its own name.
pub proof fn reading_keeps_what_was_found(info: UpdateInfo)
    ensures
        info@.has_update == info.has_update,
        info@.current == info.current@,
        info@.latest == info.latest@,
        info@.download_url == info.download_url@,
{
}

} // verus!
