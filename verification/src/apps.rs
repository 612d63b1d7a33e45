//! App control for Samsung Smart TVs: the payloads that list and launch apps
//! and open the web browser, and the JSON text they are sent as.
pub mod app_ids;

use crate::json::{clone_json, json_document, json_get, json_quoted, json_tree, member, parse_json, quote_json};
use crate::text::owned;
use vstd::prelude::*;

verus! {

/// Information about an installed app on the TV.
#[derive(Debug, Clone)]
pub struct App {
    /// Unique identifier for the app.
    pub app_id: String,
    /// Display name of the app.
    pub name: String,
    /// Whether the app is currently visible/running.
    pub is_visible: bool,
    /// App icon URL.
    pub icon: Option<String>,
    /// App version.
    pub version: Option<String>,
}

/// Payload for launching an app.
#[derive(Debug)]
pub struct AppLaunchPayload {
    pub method: &'static str,
    pub params: AppLaunchParams,
}

#[derive(Debug)]
pub struct AppLaunchParams {
    pub event: &'static str,
    pub to: &'static str,
    pub data: AppLaunchData,
}

#[derive(Debug)]
pub struct AppLaunchData {
    pub app_id: String,
    pub action_type: &'static str,
    pub meta_tag: Option<String>,
}

/// Tizen browser app ID — used to open URLs on the TV.
pub const TIZEN_BROWSER_APP_ID: &'static str = "org.tizen.browser";

/// Payload for opening the web browser.
///
/// Opening the browser is just launching the Tizen browser app with the
/// target URL passed as `metaTag` and `NATIVE_LAUNCH` as the action type.
pub type BrowserPayload = AppLaunchPayload;

/// The characters of an optional string.
pub open spec fn opt_view(o: Option<String>) -> Option<Seq<char>> {
    match o {
        Some(s) => Some(s@),
        None => None,
    }
}

/// A launch payload of the `ed.apps.launch` event addressed to the host,
/// with the given app, action type and deep-link tag.
pub open spec fn is_launch(
    p: AppLaunchPayload,
    app_id: Seq<char>,
    action_type: Seq<char>,
    meta_tag: Option<Seq<char>>,
) -> bool {
    &&& p.method@ == "ms.channel.emit"@
    &&& p.params.event@ == "ed.apps.launch"@
    &&& p.params.to@ == "host"@
    &&& p.params.data.app_id@ == app_id
    &&& p.params.data.action_type@ == action_type
    &&& opt_view(p.params.data.meta_tag) == meta_tag
}

/// The JSON text of a launch payload: members in declaration order, with
/// `appId` and `metaTag` as the protocol names them, and no `metaTag`
/// member when there is no tag.
pub open spec fn launch_payload_json(p: AppLaunchPayload) -> Seq<char> {
    "{\"method\":"@ + json_quoted(p.method@) + ",\"params\":{\"event\":"@ + json_quoted(
        p.params.event@,
    ) + ",\"to\":"@ + json_quoted(p.params.to@) + ",\"data\":{\"appId\":"@ + json_quoted(
        p.params.data.app_id@,
    ) + ",\"action_type\":"@ + json_quoted(p.params.data.action_type@) + match p.params.data.meta_tag {
        Some(m) => ",\"metaTag\":"@ + json_quoted(m@),
        None => ""@,
    } + "}}}"@
}

impl AppLaunchPayload {
    /// Creates a payload to launch an app by ID.
    pub fn launch(app_id: &str) -> (r: Self)
        ensures
            is_launch(r, app_id@, "DEEP_LINK"@, None),
    {
        AppLaunchPayload {
            method: "ms.channel.emit",
            params: AppLaunchParams {
                event: "ed.apps.launch",
                to: "host",
                data: AppLaunchData {
                    app_id: owned(app_id),
                    action_type: "DEEP_LINK",
                    meta_tag: None,
                },
            },
        }
    }

    /// Creates a payload to launch an app with deep link metadata.
    pub fn launch_with_meta(app_id: &str, meta: &str) -> (r: Self)
        ensures
            is_launch(r, app_id@, "DEEP_LINK"@, Some(meta@)),
    {
        AppLaunchPayload {
            method: "ms.channel.emit",
            params: AppLaunchParams {
                event: "ed.apps.launch",
                to: "host",
                data: AppLaunchData {
                    app_id: owned(app_id),
                    action_type: "DEEP_LINK",
                    meta_tag: Some(owned(meta)),
                },
            },
        }
    }

    /// Creates a payload to open a URL in the TV's web browser.
    pub fn open_browser(url: &str) -> (r: Self)
        ensures
            is_launch(r, TIZEN_BROWSER_APP_ID@, "NATIVE_LAUNCH"@, Some(url@)),
    {
        AppLaunchPayload {
            method: "ms.channel.emit",
            params: AppLaunchParams {
                event: "ed.apps.launch",
                to: "host",
                data: AppLaunchData {
                    app_id: owned(TIZEN_BROWSER_APP_ID),
                    action_type: "NATIVE_LAUNCH",
                    meta_tag: Some(owned(url)),
                },
            },
        }
    }

    /// The JSON text sent over the WebSocket for this payload.
    pub fn to_json(&self) -> (r: String)
        ensures
            r@ == launch_payload_json(*self),
    {
        let mut out = String::new();
        out.append("{\"method\":");
        out.append(quote_json(self.method).as_str());
        out.append(",\"params\":{\"event\":");
        out.append(quote_json(self.params.event).as_str());
        out.append(",\"to\":");
        out.append(quote_json(self.params.to).as_str());
        out.append(",\"data\":{\"appId\":");
        out.append(quote_json(self.params.data.app_id.as_str()).as_str());
        out.append(",\"action_type\":");
        out.append(quote_json(self.params.data.action_type).as_str());
        let ghost before = out@;
        match &self.params.data.meta_tag {
            Some(m) => {
                out.append(",\"metaTag\":");
                out.append(quote_json(m.as_str()).as_str());
                assert(out@ =~= before + (",\"metaTag\":"@ + json_quoted(m@)));
            },
            None => {
                proof {
                    reveal_strlit("");
                }
                assert(out@ =~= before + ""@);
            },
        }
        out.append("}}}");
        out
    }
}

/// Payload for requesting the app list.
#[derive(Debug)]
pub struct AppListPayload {
    pub method: &'static str,
    pub params: AppListParams,
}

#[derive(Debug)]
pub struct AppListParams {
    pub event: &'static str,
    pub data: AppListData,
}

#[derive(Debug)]
pub struct AppListData {}

/// The JSON text of the app-list request; its data is the empty object.
pub open spec fn list_payload_json(p: AppListPayload) -> Seq<char> {
    "{\"method\":"@ + json_quoted(p.method@) + ",\"params\":{\"event\":"@ + json_quoted(
        p.params.event@,
    ) + ",\"data\":{}}}"@
}

impl AppListPayload {
    /// Creates a payload to request the installed apps list.
    pub fn new() -> (r: Self)
        ensures
            r.method@ == "ms.channel.emit"@,
            r.params.event@ == "ed.installedApp.get"@,
    {
        AppListPayload {
            method: "ms.channel.emit",
            params: AppListParams { event: "ed.installedApp.get", data: AppListData {  } },
        }
    }

    /// The JSON text sent over the WebSocket for this payload.
    pub fn to_json(&self) -> (r: String)
        ensures
            r@ == list_payload_json(*self),
    {
        let mut out = String::new();
        out.append("{\"method\":");
        out.append(quote_json(self.method).as_str());
        out.append(",\"params\":{\"event\":");
        out.append(quote_json(self.params.event).as_str());
        out.append(",\"data\":{}}}");
        out
    }
}

/// The app list in the TV's reply to the app-list request: the member
/// `data.data` of the JSON reply, if the reply is JSON and has it. The
/// caller reads the apps out of it; a reply without it gives no apps.
pub fn app_list_value(response: &str) -> (r: Option<serde_json::Value>)
    ensures
        match json_document(response@) {
            Some(doc) => match member(doc, "data"@) {
                Some(d) => match member(d, "data"@) {
                    Some(a) => r matches Some(v) && json_tree(v) == a,
                    None => r is None,
                },
                None => r is None,
            },
            None => r is None,
        },
{
    let doc = match parse_json(response) {
        Some(d) => d,
        None => return None,
    };
    let outer = match json_get(&doc, "data") {
        Some(d) => d,
        None => return None,
    };
    match json_get(outer, "data") {
        Some(apps) => Some(clone_json(apps)),
        None => None,
    }
}

} // verus!
