use crate::config::{FIBONACCI_PATH, HEALTH_PATH};
use vstd::prelude::*;
use vstd::string::StringExecFns;

verus! {

/// The name the landing page gives the service.
pub const SERVICE_TITLE: &'static str = "Rust Backend API";

/// The landing page up to the service's name.
pub const PAGE_HEAD: &'static str = r#"
        <!DOCTYPE html>
        <html>
        <head>
            <title>Rust Backend - Benchmark</title>
            <style>
                body { font-family: Arial, sans-serif; margin: 40px; background: #f5f5f5; }
                .container { background: white; padding: 30px; border-radius: 8px; box-shadow: 0 2px 4px rgba(0,0,0,0.1); }
                h1 { color: #333; }
                code { background: #f4f4f4; padding: 2px 6px; border-radius: 3px; }
                .endpoint { margin: 15px 0; padding: 10px; background: #f9f9f9; border-left: 3px solid #007bff; }
            </style>
        </head>
        <body>
            <div class="container">
                <h1>🦀 "#;

/// Between the service's name and the health check's path.
pub const PAGE_BEFORE_HEALTH: &'static str = r#"</h1>
                <p>This is a high-performance Rust backend with compute-intensive endpoints for benchmarking.</p>

                <h2>Available Endpoints:</h2>
                <div class="endpoint">
                    <strong>GET "#;

/// Between the health check's path and the Fibonacci endpoint's path.
pub const PAGE_BEFORE_FIBONACCI: &'static str = r#"</strong> - Health check
                </div>
                <div class="endpoint">
                    <strong>GET "#;

/// The rest of the landing page.
pub const PAGE_TAIL: &'static str = r#"?n=30</strong> - Compute Fibonacci number (default n=30)
                </div>
            </div>
        </body>
        </html>
        "#;

/// `t` occurs in `s` as a contiguous run.
pub open spec fn contains(s: Seq<char>, t: Seq<char>) -> bool {
    exists|i: int| 0 <= i && i + t.len() <= s.len() && #[trigger] s.subrange(i, i + t.len()) == t
}

/// The landing page: an HTML document that names the service and lists its
/// endpoints.
pub open spec fn landing_page() -> Seq<char> {
    PAGE_HEAD@ + SERVICE_TITLE@ + PAGE_BEFORE_HEALTH@ + HEALTH_PATH@ + PAGE_BEFORE_FIBONACCI@
        + FIBONACCI_PATH@ + PAGE_TAIL@
}

proof fn lemma_contains_middle(a: Seq<char>, t: Seq<char>, b: Seq<char>)
    ensures
        contains(a + t + b, t),
{
    assert((a + t + b).subrange(a.len() as int, (a.len() + t.len()) as int) =~= t);
}

/// The landing page, embedded in the library.
pub fn root_page() -> (r: String)
    ensures
        r@ == landing_page(),
        contains(r@, SERVICE_TITLE@),
        contains(r@, HEALTH_PATH@),
        contains(r@, FIBONACCI_PATH@),
{
    let mut page = String::from_str(PAGE_HEAD);
    page.append(SERVICE_TITLE);
    page.append(PAGE_BEFORE_HEALTH);
    page.append(HEALTH_PATH);
    page.append(PAGE_BEFORE_FIBONACCI);
    page.append(FIBONACCI_PATH);
    page.append(PAGE_TAIL);
    proof {
        let head = PAGE_HEAD@;
        let after_title = PAGE_BEFORE_HEALTH@ + HEALTH_PATH@ + PAGE_BEFORE_FIBONACCI@
            + FIBONACCI_PATH@ + PAGE_TAIL@;
        assert(page@ =~= head + SERVICE_TITLE@ + after_title);
        lemma_contains_middle(head, SERVICE_TITLE@, after_title);
        let before_health = PAGE_HEAD@ + SERVICE_TITLE@ + PAGE_BEFORE_HEALTH@;
        let after_health = PAGE_BEFORE_FIBONACCI@ + FIBONACCI_PATH@ + PAGE_TAIL@;
        assert(page@ =~= before_health + HEALTH_PATH@ + after_health);
        lemma_contains_middle(before_health, HEALTH_PATH@, after_health);
        let before_fibonacci = PAGE_HEAD@ + SERVICE_TITLE@ + PAGE_BEFORE_HEALTH@ + HEALTH_PATH@
            + PAGE_BEFORE_FIBONACCI@;
        assert(page@ =~= before_fibonacci + FIBONACCI_PATH@ + PAGE_TAIL@);
        lemma_contains_middle(before_fibonacci, FIBONACCI_PATH@, PAGE_TAIL@);
    }
    page
}

} // verus!
