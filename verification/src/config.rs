//! The settings a deployment runs with, and the client script served to browsers.
use vstd::prelude::*;
use vstd::string::StringExecFns;

verus! {

/// The client script up to where the port stands.
pub const SCRIPT_UP_TO_PORT: &'static str = r#"
                // Setup websocket connection for live reloading
                const socket = new WebSocket("ws://localhost:"+"#;

/// The client script from the port to where the style element is looked up by its id.
pub const SCRIPT_UP_TO_ELEMENT_ID: &'static str = r#"+"/ws");
                console.info("Yeti client loaded");
                socket.onopen = function (event){ 
                    console.info("Yeti connection opened");
                };

                // Listen for messages from the Rust websocket server
                socket.onmessage = function (event) {
                    const message = event.data;
                    console.info("Received message from Yeti server: " + message);

                    switch (message) {
                        case "reload":
                        console.info("Reloading css");
                        const styleElement = document.getElementById(""#;

/// The client script from the lookup to where the id is named in the failure message.
pub const SCRIPT_UP_TO_REPORTED_ID: &'static str = r#"");

                        // Exit if style element not found
                        if (!styleElement) {
                            console.error("Reload failed. Failed to find element with id: " + ""#;

/// The rest of the client script.
pub const SCRIPT_REST: &'static str = r#"");
                            return;
                        }

                        const url = styleElement.getAttribute("href");

                        // Convert timestamp from milliseconds to seconds to mimic PHP time()
                        const timestampAsSeconds = Math.floor(new Date().getTime() / 1000);
                        // Add URL query to cache bust
                        const url_query = url+"?ver="+timestampAsSeconds;
                        // Set new URL to automatically fetch new css and bust cache
                        styleElement.setAttribute("href", url_query);
                        break;
                        default:
                        break;
                    }
                };

                socket.onerror = function (error) {
                console.error("Yeti error: ", error);
                };

                socket.onclose = function (event) {
                console.log("Yeti Connection closed");
                };

                addEventListener("beforeunload", (event) => {
                socket.close();
                });
        "#;

/// Settings of one deployment, as the settings file gives them.
#[derive(Clone, Debug)]
pub struct ServerConfig {
    pub watch_dir: String,
    pub input_file_path: String,
    pub output_file_path: String,
    pub style_tag_id: String,
    pub port: u16,
    pub stop_on_error: bool,
    pub experimental: bool,
}

/// The character of a decimal digit.
pub open spec fn digit(d: nat) -> char {
    if d == 0 {
        '0'
    } else if d == 1 {
        '1'
    } else if d == 2 {
        '2'
    } else if d == 3 {
        '3'
    } else if d == 4 {
        '4'
    } else if d == 5 {
        '5'
    } else if d == 6 {
        '6'
    } else if d == 7 {
        '7'
    } else if d == 8 {
        '8'
    } else {
        '9'
    }
}

/// A number written in decimal, without sign or leading zeros.
pub open spec fn decimal(n: nat) -> Seq<char>
    decreases n,
{
    if n < 10 {
        seq![digit(n)]
    } else {
        decimal(n / 10).push(digit(n % 10))
    }
}

/// The client script for a server on `port` and a style element with the id
/// `style_tag_id`: the fixed text with the port written in decimal in one place and
/// the id in two.
pub open spec fn spec_client_script(port: u16, style_tag_id: Seq<char>) -> Seq<char> {
    SCRIPT_UP_TO_PORT@ + decimal(port as nat) + SCRIPT_UP_TO_ELEMENT_ID@ + style_tag_id
        + SCRIPT_UP_TO_REPORTED_ID@ + style_tag_id + SCRIPT_REST@
}

/// The text of one decimal digit.
fn digit_text(d: u16) -> (text: &'static str)
    requires
        d < 10,
    ensures
        text@ == seq![digit(d as nat)],
{
    proof {
        reveal_strlit("0");
        reveal_strlit("1");
        reveal_strlit("2");
        reveal_strlit("3");
        reveal_strlit("4");
        reveal_strlit("5");
        reveal_strlit("6");
        reveal_strlit("7");
        reveal_strlit("8");
        reveal_strlit("9");
    }
    let text = if d == 0 {
        "0"
    } else if d == 1 {
        "1"
    } else if d == 2 {
        "2"
    } else if d == 3 {
        "3"
    } else if d == 4 {
        "4"
    } else if d == 5 {
        "5"
    } else if d == 6 {
        "6"
    } else if d == 7 {
        "7"
    } else if d == 8 {
        "8"
    } else {
        "9"
    };
    text
}

/// Appends `n`, written in decimal, to `text`.
fn append_decimal(text: &mut String, n: u16)
    ensures
        final(text)@ == old(text)@ + decimal(n as nat),
    decreases n,
{
    if n >= 10 {
        append_decimal(text, n / 10);
    }
    text.append(digit_text(n % 10));
}

impl ServerConfig {
    /// Takes over the given settings, field by field.
    pub fn new(config: ServerConfig) -> (created: Self)
        ensures
            created == config,
    {
        ServerConfig {
            watch_dir: config.watch_dir,
            input_file_path: config.input_file_path,
            output_file_path: config.output_file_path,
            style_tag_id: config.style_tag_id,
            port: config.port,
            stop_on_error: config.stop_on_error,
            experimental: config.experimental,
        }
    }

    /// The settings that an empty settings file is filled with.
    pub fn default_values() -> (settings: ServerConfig)
        ensures
            settings.watch_dir@ == "scss_folder"@,
            settings.input_file_path@ == "scss/main.scss"@,
            settings.output_file_path@ == "dist/main.css"@,
            settings.style_tag_id@ == "css-id"@,
            settings.port == 8080,
            settings.stop_on_error,
            !settings.experimental,
    {
        ServerConfig {
            watch_dir: String::from_str("scss_folder"),
            input_file_path: String::from_str("scss/main.scss"),
            output_file_path: String::from_str("dist/main.css"),
            style_tag_id: String::from_str("css-id"),
            port: 8080,
            stop_on_error: true,
            experimental: false,
        }
    }

    /// Writes the client script for a server on `port` and a style element with the
    /// id `style_tag_id`.
    pub fn serve_javascript_string(port: u16, style_tag_id: &str) -> (script: String)
        ensures
            script@ == spec_client_script(port, style_tag_id@),
    {
        let mut script = String::from_str(SCRIPT_UP_TO_PORT);
        append_decimal(&mut script, port);
        script.append(SCRIPT_UP_TO_ELEMENT_ID);
        script.append(style_tag_id);
        script.append(SCRIPT_UP_TO_REPORTED_ID);
        script.append(style_tag_id);
        script.append(SCRIPT_REST);
        script
    }
}

} // verus!
