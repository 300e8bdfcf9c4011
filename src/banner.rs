use vstd::prelude::*;

verus! {

/// Title art shown when the game starts.
pub const BANNER: &'static str = "
\t ██████╗    ██████╗    ██╗   ██╗    ██████╗    
\t ██╔══██╗   ██╔══██╗   ██║   ██║   ██╔════╝    
\t ██║  ██║   ██████╔╝   ██║   ██║   ██║  ███╗   
\t ██║  ██║   ██╔══██╗   ██║   ██║   ██║   ██║   
\t ██████╔╝   ██║  ██║   ╚██████╔╝   ╚██████╔╝   
\t ╚═════╝    ╚═╝  ╚═╝    ╚═════╝     ╚═════╝    
\t 
\t ██╗    ██╗       ███╗    ██████╗    ███████╗   
\t ██║    ██║      ████╗    ██╔══██╗   ██╔════╝   
\t ██║ █╗ ██║     ██╔██╗    ██████╔╝   ███████╗   
\t ██║███╗██║    ██╔╝██╗    ██╔══██╗   ╚════██║   
\t ╚███╔███╔╝   ███████╗    ██║  ██║   ███████║   
\t  ╚══╝╚══╝    ╚══════╝    ╚═╝  ╚═╝   ╚══════╝ 
\t 
";

/// The title art, for the caller to print.
pub fn show_banner() -> (r: String)
    ensures
        r@ == BANNER@,
{
    BANNER.to_string()
}

} // verus!
