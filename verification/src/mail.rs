//! The magic-link e-mail.
use vstd::prelude::*;

use crate::text::concat3;

verus! {

/// An e-mail ready to be handed to the mail service.
#[derive(Debug, PartialEq)]
pub struct MailMessage {
    pub from: String,
    pub to: String,
    pub subject: String,
    pub tag: String,
    pub html: String,
    pub text: String,
    pub stream: String,
}

/// The HTML body that links to `url`.
pub open spec fn html_body(url: Seq<char>) -> Seq<char> {
    "<p><a href=\""@ + url + "\">Biztonságos belépés</a></p>"@
}

/// The plain-text body that shows `url`.
pub open spec fn text_body(url: Seq<char>) -> Seq<char> {
    "Belépés: "@ + url
}

/// The magic-link e-mail from `from` to `to` on the message stream `stream`.
pub fn message(from: &str, to: &str, stream: &str, url: &str) -> (r: MailMessage)
    ensures
        r.from@ == from@,
        r.to@ == to@,
        r.stream@ == stream@,
        r.subject@ == "Belépési link"@,
        r.tag@ == "magic-link"@,
        r.html@ == html_body(url@),
        r.text@ == text_body(url@),
{
    let text = concat3("Belépés: ", url, "");
    proof {
        reveal_strlit("");
        assert("Belépés: "@ + url@ + ""@ =~= "Belépés: "@ + url@);
    }
    MailMessage {
        from: from.to_owned(),
        to: to.to_owned(),
        subject: "Belépési link".to_owned(),
        tag: "magic-link".to_owned(),
        html: concat3("<p><a href=\"", url, "\">Biztonságos belépés</a></p>"),
        text,
        stream: stream.to_owned(),
    }
}

} // verus!
