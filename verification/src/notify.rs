//! The notification that the user sees when the bypass is given up.

use vstd::prelude::*;

use crate::text::{chars_of, concat4, concat5};

verus! {

/// The title of the notification.
pub const FALLBACK_TITLE: &'static str = "旁路由异常";

/// The text of the notification.
pub const FALLBACK_BODY: &'static str = "旁路由异常，已自动切回直连";

/// The text of the notification, with the time of day.
pub fn fallback_body(time: &str) -> (body: String)
    ensures
        body@ == FALLBACK_BODY@ + "（"@ + time@ + "）"@,
{
    concat4(FALLBACK_BODY, "（", time, "）")
}

/// A character inside XML text.
pub open spec fn xml_char(c: char) -> Seq<char> {
    if c == '&' {
        "&amp;"@
    } else if c == '<' {
        "&lt;"@
    } else if c == '>' {
        "&gt;"@
    } else if c == '"' {
        "&quot;"@
    } else {
        seq![c]
    }
}

/// A text inside XML.
pub open spec fn xml_text(s: Seq<char>) -> Seq<char>
    decreases s.len(),
{
    if s.len() == 0 {
        seq![]
    } else {
        xml_text(s.drop_last()) + xml_char(s.last())
    }
}

/// Writes a text so that XML takes every character for itself.
pub fn xml_escape(s: &str) -> (out: String)
    ensures
        out@ == xml_text(s@),
{
    let v = chars_of(s);
    let mut out = String::new();
    let mut i: usize = 0;
    while i < v.len()
        invariant
            v@ == s@,
            i <= v@.len(),
            out@ == xml_text(s@.take(i as int)),
        decreases v@.len() - i,
    {
        assert(s@.take(i + 1).drop_last() =~= s@.take(i as int));
        let ghost before = out@;
        let c = v[i];
        if c == '&' {
            out.append("&amp;");
        } else if c == '<' {
            out.append("&lt;");
        } else if c == '>' {
            out.append("&gt;");
        } else if c == '"' {
            out.append("&quot;");
        } else {
            out.push(c);
        }
        assert(out@ =~= before + xml_char(c));
        i = i + 1;
    }
    assert(s@.take(s@.len() as int) =~= s@);
    out
}

/// What stands before the title in the script.
pub const SCRIPT_HEAD: &'static str = r#"
[Windows.UI.Notifications.ToastNotificationManager, Windows.UI.Notifications, ContentType = WindowsRuntime] | Out-Null
[Windows.Data.Xml.Dom.XmlDocument, Windows.Data.Xml.Dom.XmlDocument, ContentType = WindowsRuntime] | Out-Null
$xml = @"
<toast><visual><binding template="ToastText02"><text id="1">"#;

/// What stands between the title and the text in the script.
pub const SCRIPT_MIDDLE: &'static str = r#"</text><text id="2">"#;

/// What stands after the text in the script.
pub const SCRIPT_TAIL: &'static str = r#"</text></binding></visual></toast>
"@
$doc = New-Object Windows.Data.Xml.Dom.XmlDocument
$doc.LoadXml($xml)
$toast = New-Object Windows.UI.Notifications.ToastNotification($doc)
[Windows.UI.Notifications.ToastNotificationManager]::CreateToastNotifier("Bypass Tool").Show($toast)
"#;

/// The script that shows a notification.
pub fn show_toast(title: &str, body: &str) -> (script: String)
    ensures
        script@ == SCRIPT_HEAD@ + xml_text(title@) + SCRIPT_MIDDLE@ + xml_text(body@)
            + SCRIPT_TAIL@,
{
    let t = xml_escape(title);
    let b = xml_escape(body);
    concat5(SCRIPT_HEAD, t.as_str(), SCRIPT_MIDDLE, b.as_str(), SCRIPT_TAIL)
}

/// An escaped text holds none of the characters that would end the text or begin a tag:
/// whatever the text says, the notification keeps its shape.
pub proof fn escaped_text_has_no_markup(s: Seq<char>, k: int)
    requires
        0 <= k < xml_text(s).len(),
    ensures
        xml_text(s)[k] != '<',
        xml_text(s)[k] != '>',
        xml_text(s)[k] != '"',
    decreases s.len(),
{
    reveal_strlit("&amp;");
    reveal_strlit("&lt;");
    reveal_strlit("&gt;");
    reveal_strlit("&quot;");
    let front = xml_text(s.drop_last());
    if k < front.len() {
        escaped_text_has_no_markup(s.drop_last(), k);
        assert(xml_text(s)[k] == front[k]);
    } else {
        assert(xml_text(s)[k] == xml_char(s.last())[k - front.len()]);
    }
}

} // verus!
