//! The HTML entry point that a project gets when it has none.

use vstd::prelude::*;

verus! {

/// The text of the default entry point: a page that loads the module that a
/// build leaves in the `static` directory under the base name `wasm`.
pub open spec fn default_index_html() -> Seq<char> {
    "<!DOCTYPE html>\n<html>\n  <head>\n    <meta charset=\"utf-8\">\n    <title>Yew</title>\n  </head>\n  <body>\n    <script type=\"module\">\n      import init from \"./wasm.js\";\n      init();\n    </script>\n  </body>\n</html>\n"@
}

/// The default entry point, ready to be handed to a session as its template.
pub fn default_template() -> (template: String)
    ensures
        template@ == default_index_html(),
{
    String::from_str(
        "<!DOCTYPE html>\n<html>\n  <head>\n    <meta charset=\"utf-8\">\n    <title>Yew</title>\n  </head>\n  <body>\n    <script type=\"module\">\n      import init from \"./wasm.js\";\n      init();\n    </script>\n  </body>\n</html>\n",
    )
}

} // verus!
