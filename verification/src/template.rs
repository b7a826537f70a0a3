//! The configuration that ships with the program.

use vstd::prelude::*;

verus! {

/// The default configuration: what is loaded where the user has written
/// none, and what a generated configuration file holds.
pub const DEFAULT_CONFIG: &'static str = "# How each group of tokens is highlighted.
# A group that is left out is not highlighted at all.
# Colors: none, black, red, green, yellow, blue, magenta, cyan, white.

[groups.date]
style = { fg = 'magenta' }

[groups.number]
style = { fg = 'cyan' }

[groups.quotes]
style = { fg = 'yellow' }
token = '\"'

[groups.uuid]
segment = { fg = 'blue', italic = true }
separator = { fg = 'red' }

[groups.url]
http = { fg = 'red', faint = true }
https = { fg = 'green', faint = true }
host = { fg = 'blue', faint = true }
path = { fg = 'blue' }
query_params_key = { fg = 'magenta' }
query_params_value = { fg = 'cyan' }
symbols = { fg = 'red' }

[groups.ip]
segment = { fg = 'blue', italic = true }
separator = { fg = 'red' }

[groups.path]
segment = { fg = 'green', italic = true }
separator = { fg = 'yellow' }

[[groups.keywords]]
words = ['null', 'true', 'false']
style = { fg = 'red', italic = true }

[[groups.keywords]]
words = ['GET', 'POST', 'PUT', 'PATCH', 'DELETE']
style = { fg = 'black', bg = 'green' }

[[groups.keywords]]
words = ['ERROR', 'FATAL']
style = { fg = 'red', bold = true }

[[groups.keywords]]
words = ['WARN', 'WARNING']
style = { fg = 'yellow', bold = true }

[[groups.keywords]]
words = ['INFO']
style = { fg = 'white' }

[[groups.keywords]]
words = ['DEBUG', 'TRACE']
style = { fg = 'green', faint = true }
";

} // verus!
