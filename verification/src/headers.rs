//! The headers that every request of a session carries.

use vstd::prelude::*;
use vstd::string::*;

verus! {

/// One header of a request.
pub struct Header {
    pub name: String,
    pub value: String,
}

impl View for Header {
    type V = (Seq<char>, Seq<char>);

    open spec fn view(&self) -> (Seq<char>, Seq<char>) {
        (self.name@, self.value@)
    }
}

/// The names and values that a list of headers holds, in order.
pub open spec fn headers_view(headers: Seq<Header>) -> Seq<(Seq<char>, Seq<char>)> {
    Seq::new(headers.len(), |k: int| headers[k]@)
}

/// The headers of a session: those of a desktop browser that asks for pages
/// in Chinese and sends form bodies.
pub open spec fn default_headers() -> Seq<(Seq<char>, Seq<char>)> {
    seq![
        ("Accept"@, "text/html,application/xhtml+xml,application/xml;q=0.9,image/avif,image/webp,image/apng,*/*;q=0.8,application/signed-exchange;v=b3;q=0.7"@),
        ("Accept-Encoding"@, "gzip, deflate"@),
        ("Accept-Language"@, "zh-CN,zh;q=0.9,en;q=0.8,en-GB;q=0.7,en-US;q=0.6"@),
        ("Cache-Control"@, "no-cache"@),
        ("Cookie"@, "student.urpSoft.cn=aaaMopex9TYVZhRTRd3pz"@),
        ("DNT"@, "1"@),
        ("Host"@, "zhjw.scu.edu.cn"@),
        ("Pragma"@, "no-cache"@),
        ("Proxy-Connection"@, "keep-alive"@),
        ("Upgrade-Insecure-Requests"@, "1"@),
        ("User-Agent"@, "Mozilla/5.0 (Windows NT 10.0; Win64; x64) AppleWebKit/537.36 (KHTML, like Gecko) Chrome/131.0.0.0 Safari/537.36 Edg/131.0.0.0"@),
        ("content-type"@, "application/x-www-form-urlencoded; charset=UTF-8"@),
    ]
}

/// Appends a header.
fn set_header(headers: &mut Vec<Header>, name: &str, value: &str)
    ensures
        headers_view(final(headers)@) == headers_view(old(headers)@).push((name@, value@)),
{
    headers.push(Header { name: String::from_str(name), value: String::from_str(value) });
    assert(headers_view(headers@) =~= headers_view(old(headers)@).push((name@, value@)));
}

/// Builds the headers of a session.
pub fn generate_headers() -> (headers: Vec<Header>)
    ensures
        headers_view(headers@) == default_headers(),
{
    let mut headers: Vec<Header> = Vec::new();
    assert(headers_view(headers@) =~= Seq::empty());
    set_header(&mut headers, "Accept", "text/html,application/xhtml+xml,application/xml;q=0.9,image/avif,image/webp,image/apng,*/*;q=0.8,application/signed-exchange;v=b3;q=0.7");
    set_header(&mut headers, "Accept-Encoding", "gzip, deflate");
    set_header(&mut headers, "Accept-Language", "zh-CN,zh;q=0.9,en;q=0.8,en-GB;q=0.7,en-US;q=0.6");
    set_header(&mut headers, "Cache-Control", "no-cache");
    set_header(&mut headers, "Cookie", "student.urpSoft.cn=aaaMopex9TYVZhRTRd3pz");
    set_header(&mut headers, "DNT", "1");
    set_header(&mut headers, "Host", "zhjw.scu.edu.cn");
    set_header(&mut headers, "Pragma", "no-cache");
    set_header(&mut headers, "Proxy-Connection", "keep-alive");
    set_header(&mut headers, "Upgrade-Insecure-Requests", "1");
    set_header(&mut headers, "User-Agent", "Mozilla/5.0 (Windows NT 10.0; Win64; x64) AppleWebKit/537.36 (KHTML, like Gecko) Chrome/131.0.0.0 Safari/537.36 Edg/131.0.0.0");
    set_header(&mut headers, "content-type", "application/x-www-form-urlencoded; charset=UTF-8");
    assert(headers_view(headers@) =~= default_headers());
    headers
}

} // verus!
