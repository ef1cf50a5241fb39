use vstd::prelude::*;

verus! {

/// A byte that URL encoding leaves as it is: an ASCII letter or digit, or
/// one of `-`, `.`, `_`, `~`.
pub open spec fn unreserved(b: u8) -> bool {
    (48 <= b <= 57) || (65 <= b <= 90) || (97 <= b <= 122) || b == 45 || b == 46 || b == 95
        || b == 126
}

/// An upper-case hexadecimal digit.
pub open spec fn hex_digit(d: u8) -> char {
    if d < 10 {
        (48 + d) as char
    } else {
        (55 + d) as char
    }
}

/// The bytes `b` percent-encoded: each byte that is not unreserved becomes
/// `%` and two upper-case hexadecimal digits.
pub open spec fn percent_encoded(b: Seq<u8>) -> Seq<char>
    decreases b.len(),
{
    if b.len() == 0 {
        Seq::empty()
    } else {
        let x = b.last();
        percent_encoded(b.drop_last()) + if unreserved(x) {
            seq![x as char]
        } else {
            seq!['%', hex_digit(x / 16), hex_digit(x % 16)]
        }
    }
}

/// Relies on `urlencoding::encode`, which percent-encodes every byte of the
/// UTF-8 text but ASCII letters, digits and `-`, `_`, `.`, `~`.
#[verifier::external_body]
fn url_encode(s: &str) -> (r: String)
    ensures
        r@ == percent_encoded(vstd::utf8::encode_utf8(s@)),
{
    urlencoding::encode(s).into_owned()
}

/// `base` and `server` followed by the path of a request.
pub open spec fn endpoint(base: Seq<char>, server: Seq<char>) -> Seq<char> {
    base + server
}

/// The request for the items a user has started and not finished.
pub fn resume_url(base: &str, server: &str, user_id: &str) -> (r: String)
    ensures
        r@ == endpoint(base@, server@) + "/Users/"@ + user_id@
            + "/Items/Resume?Fields=PremiereDate,MediaSources"@,
{
    let mut r = String::from_str(base);
    r.append(server);
    r.append("/Users/");
    r.append(user_id);
    r.append("/Items/Resume?Fields=PremiereDate,MediaSources");
    r
}

/// The request for the next episodes of the shows a user follows.
pub fn next_up_url(base: &str, server: &str, user_id: &str) -> (r: String)
    ensures
        r@ == endpoint(base@, server@) + "/Shows/NextUp?Fields=PremiereDate,MediaSources&UserId="@
            + user_id@,
{
    let mut r = String::from_str(base);
    r.append(server);
    r.append("/Shows/NextUp?Fields=PremiereDate,MediaSources&UserId=");
    r.append(user_id);
    r
}

/// The request for the ten latest items of one type (`Episode` or `Movie`).
pub fn latest_url(base: &str, server: &str, user_id: &str, item_type: &str) -> (r: String)
    ensures
        r@ == endpoint(base@, server@) + "/Users/"@ + user_id@
            + "/Items/Latest?Limit=10&IncludeItemTypes="@ + item_type@
            + "&Fields=PremiereDate,MediaSources"@,
{
    let mut r = String::from_str(base);
    r.append(server);
    r.append("/Users/");
    r.append(user_id);
    r.append("/Items/Latest?Limit=10&IncludeItemTypes=");
    r.append(item_type);
    r.append("&Fields=PremiereDate,MediaSources");
    r
}

/// The request for every series and movie.
pub fn all_items_url(base: &str, server: &str, user_id: &str) -> (r: String)
    ensures
        r@ == endpoint(base@, server@) + "/Items?UserId="@ + user_id@
            + "&Recursive=true&IncludeItemTypes=Series,Movie&Fields=PremiereDate,MediaSources&collapseBoxSetItems=False"@,
{
    let mut r = String::from_str(base);
    r.append(server);
    r.append("/Items?UserId=");
    r.append(user_id);
    r.append(
        "&Recursive=true&IncludeItemTypes=Series,Movie&Fields=PremiereDate,MediaSources&collapseBoxSetItems=False",
    );
    r
}

/// The request for the series and movies that match a search term, which is
/// percent-encoded into it.
pub fn search_url(base: &str, server: &str, term: &str, user_id: &str) -> (r: String)
    ensures
        r@ == endpoint(base@, server@) + "/Items?SearchTerm="@ + percent_encoded(
            vstd::utf8::encode_utf8(term@),
        ) + "&UserId="@ + user_id@
            + "&Recursive=true&IncludeItemTypes=Series,Movie&Fields=PremiereDate,MediaSources&collapseBoxSetItems=False"@,
{
    let encoded = url_encode(term);
    let mut r = String::from_str(base);
    r.append(server);
    r.append("/Items?SearchTerm=");
    r.append(encoded.as_str());
    r.append("&UserId=");
    r.append(user_id);
    r.append(
        "&Recursive=true&IncludeItemTypes=Series,Movie&Fields=PremiereDate,MediaSources&collapseBoxSetItems=False",
    );
    r
}

/// The request for the children of a series or a season.
pub fn children_url(base: &str, server: &str, user_id: &str, parent_id: &str) -> (r: String)
    ensures
        r@ == endpoint(base@, server@) + "/Users/"@ + user_id@ + "/Items?ParentId="@
            + parent_id@ + "&Fields=PremiereDate,MediaSources&collapseBoxSetItems=False"@,
{
    let mut r = String::from_str(base);
    r.append(server);
    r.append("/Users/");
    r.append(user_id);
    r.append("/Items?ParentId=");
    r.append(parent_id);
    r.append("&Fields=PremiereDate,MediaSources&collapseBoxSetItems=False");
    r
}

/// The address the player streams an item from.
pub open spec fn stream_url_of(
    base: Seq<char>,
    server: Seq<char>,
    item_id: Seq<char>,
    token: Seq<char>,
) -> Seq<char> {
    endpoint(base, server) + "/Videos/"@ + item_id + "/stream?Container=mkv&Static=true&api_key="@
        + token
}

/// The address the player streams an item from.
pub fn stream_url(base: &str, server: &str, item_id: &str, token: &str) -> (r: String)
    ensures
        r@ == stream_url_of(base@, server@, item_id@, token@),
{
    let mut r = String::from_str(base);
    r.append(server);
    r.append("/Videos/");
    r.append(item_id);
    r.append("/stream?Container=mkv&Static=true&api_key=");
    r.append(token);
    r
}

/// Whether a server speaks the Emby dialect, which has no next-up request
/// of its own.
pub fn is_emby(server: &str) -> (r: bool)
    ensures
        r == (server@ == "/emby"@),
{
    crate::item::text_eq(server, "/emby")
}

} // verus!
