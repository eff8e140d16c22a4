//! Names of the environment variables that configure the exporter, and defaults.

use vstd::prelude::*;

verus! {

/// Environment variable name for the Langfuse public key.
pub const ENV_LANGFUSE_PUBLIC_KEY: &'static str = "LANGFUSE_PUBLIC_KEY";

/// Environment variable name for the Langfuse secret key.
pub const ENV_LANGFUSE_SECRET_KEY: &'static str = "LANGFUSE_SECRET_KEY";

/// Environment variable name for the Langfuse host URL.
pub const ENV_LANGFUSE_HOST: &'static str = "LANGFUSE_HOST";

/// Default Langfuse cloud host URL.
pub const DEFAULT_LANGFUSE_HOST: &'static str = "https://cloud.langfuse.com";

} // verus!
