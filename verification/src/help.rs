//! The help-page generator: one HTML document listing every registry
//! entry with its token, help text, and an example URL computed by the
//! entry's own strategy. No decision logic of its own — it iterates the
//! registry and calls the same transformation engine.
use vstd::prelude::*;
use vstd::string::StringExecFns;

use crate::hop::apply_spec;
use crate::registry::{views_of, EntryModel, ShortcutEntry};

verus! {

/// The fixed part of the page above the table rows.
pub open spec fn page_header() -> Seq<char> {
    "
        <html>
            <head>
                <link rel=\"search\"
                      type=\"application/opensearchdescription+xml\"
                      title=\"lol\"
                      href=\"https://lolbunny.sandbox.indeed.net/opensearch.xml\">
                <title>lolbunny</title>
                <!-- it really whips the llama's ass -->
            </head>
            <style>
            </style>
            <body>
                <h1>Help</h1>
                <table>
                    <tr><th>Shortcut</th><th>Description</th><th>Example of where you can end up</th></td>
                "@
}

/// The fixed part of the page below the table rows.
pub open spec fn page_footer() -> Seq<char> {
    "
                </table>
            </body>
        </html>"@
}

/// The table row of one entry: its token, its help text, and the URL its
/// strategy produces for the placeholder argument.
pub open spec fn row_spec(e: EntryModel) -> Seq<char> {
    "<tr><td>"@ + e.token + "</td><td>"@ + e.help + "</td><td><a href=\""@ + apply_spec(
        e.hop,
        "EXAMPLE"@,
    ) + "\">"@ + apply_spec(e.hop, "EXAMPLE"@) + "</a></td></tr>"@
}

/// The concatenation of the rows of the entries, in registry order.
pub open spec fn rows_spec(es: Seq<EntryModel>) -> Seq<char>
    decreases es.len(),
{
    if es.len() == 0 {
        Seq::empty()
    } else {
        row_spec(es[0]) + rows_spec(es.drop_first())
    }
}

/// The whole help page.
pub open spec fn help_page_spec(es: Seq<EntryModel>) -> Seq<char> {
    page_header() + rows_spec(es) + page_footer()
}

proof fn lemma_rows_spec_push(es: Seq<EntryModel>, e: EntryModel)
    ensures
        rows_spec(es.push(e)) == rows_spec(es) + row_spec(e),
    decreases es.len(),
{
    if es.len() == 0 {
        reveal_with_fuel(rows_spec, 2);
        assert(es.push(e).drop_first() =~= Seq::<EntryModel>::empty());
        assert(es.push(e)[0] == e);
        assert(rows_spec(es.push(e)) == row_spec(e) + Seq::<char>::empty());
        assert(row_spec(e) + Seq::<char>::empty() =~= rows_spec(es) + row_spec(e));
    } else {
        assert(es.push(e).drop_first() =~= es.drop_first().push(e));
        assert(es.push(e)[0] == es[0]);
        lemma_rows_spec_push(es.drop_first(), e);
        assert(row_spec(es[0]) + (rows_spec(es.drop_first()) + row_spec(e)) =~= (row_spec(es[0])
            + rows_spec(es.drop_first())) + row_spec(e));
    }
}

proof fn lemma_rows_spec_decompose(es: Seq<EntryModel>, i: int)
    requires
        0 <= i < es.len(),
    ensures
        rows_spec(es) == rows_spec(es.take(i)) + row_spec(es[i]) + rows_spec(es.skip(i + 1)),
    decreases i,
{
    if i == 0 {
        assert(es.drop_first() =~= es.skip(1));
        assert(rows_spec(es.take(0)) =~= Seq::<char>::empty());
        assert(rows_spec(es) == row_spec(es[0]) + rows_spec(es.skip(1)));
        assert(row_spec(es[0]) + rows_spec(es.skip(1)) =~= rows_spec(es.take(0)) + row_spec(es[0])
            + rows_spec(es.skip(1)));
    } else {
        let d = es.drop_first();
        lemma_rows_spec_decompose(d, i - 1);
        assert(d.take(i - 1) =~= es.take(i).drop_first());
        assert(d[i - 1] == es[i]);
        assert(d.skip(i) =~= es.skip(i + 1));
        assert(es.take(i)[0] == es[0]);
        assert(es.take(i).drop_first() =~= d.take(i - 1));
        assert(rows_spec(es.take(i)) == row_spec(es[0]) + rows_spec(d.take(i - 1)));
        assert(rows_spec(es) == row_spec(es[0]) + rows_spec(d));
        assert(row_spec(es[0]) + (rows_spec(d.take(i - 1)) + row_spec(es[i]) + rows_spec(
            es.skip(i + 1),
        )) =~= (row_spec(es[0]) + rows_spec(d.take(i - 1))) + row_spec(es[i]) + rows_spec(
            es.skip(i + 1),
        ));
    }
}

/// The help page holds, between its fixed header and footer, exactly the
/// row of each registry entry, in registry order: around the row of entry
/// `i` stand the rows of the entries before it and the rows of the
/// entries after it, and each row carries the URL that the entry's own
/// strategy produces for the placeholder argument.
pub proof fn lemma_help_page_row_per_entry(es: Seq<EntryModel>, i: int)
    requires
        0 <= i < es.len(),
    ensures
        help_page_spec(es) == page_header() + rows_spec(es.take(i)) + row_spec(es[i]) + rows_spec(
            es.skip(i + 1),
        ) + page_footer(),
{
    lemma_rows_spec_decompose(es, i);
    assert(page_header() + (rows_spec(es.take(i)) + row_spec(es[i]) + rows_spec(es.skip(i + 1)))
        + page_footer() =~= page_header() + rows_spec(es.take(i)) + row_spec(es[i]) + rows_spec(
        es.skip(i + 1),
    ) + page_footer());
}

/// Render the help page for a registry: the fixed header, one table row
/// per entry in order, and the fixed footer.
#[verifier::rlimit(100)]
pub fn render_help_page(entries: &Vec<ShortcutEntry>) -> (r: String)
    ensures
        r@ == help_page_spec(views_of(entries@)),
{
    let ghost models = views_of(entries@);
    let mut out = String::from_str(
        "
        <html>
            <head>
                <link rel=\"search\"
                      type=\"application/opensearchdescription+xml\"
                      title=\"lol\"
                      href=\"https://lolbunny.sandbox.indeed.net/opensearch.xml\">
                <title>lolbunny</title>
                <!-- it really whips the llama's ass -->
            </head>
            <style>
            </style>
            <body>
                <h1>Help</h1>
                <table>
                    <tr><th>Shortcut</th><th>Description</th><th>Example of where you can end up</th></td>
                ",
    );
    proof {
        assert(out@ =~= page_header() + rows_spec(models.take(0)));
    }
    let n = entries.len();
    let mut i: usize = 0;
    while i < n
        invariant
            n == entries.len(),
            models == views_of(entries@),
            models.len() == n,
            0 <= i <= n,
            out@ == page_header() + rows_spec(models.take(i as int)),
        decreases n - i,
    {
        let e = entries[i];
        let url = e.hop.to_string("EXAMPLE");
        out.append("<tr><td>");
        out.append(e.token);
        out.append("</td><td>");
        out.append(e.help);
        out.append("</td><td><a href=\"");
        out.append(url.as_str());
        out.append("\">");
        out.append(url.as_str());
        out.append("</a></td></tr>");
        proof {
            assert(models.take(i + 1) =~= models.take(i as int).push(models[i as int]));
            lemma_rows_spec_push(models.take(i as int), models[i as int]);
            assert(out@ =~= page_header() + rows_spec(models.take(i + 1)));
        }
        i = i + 1;
    }
    out.append(
        "
                </table>
            </body>
        </html>",
    );
    proof {
        assert(models.take(n as int) =~= models);
        assert(out@ =~= help_page_spec(models));
    }
    out
}

} // verus!
