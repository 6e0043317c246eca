use vstd::prelude::*;

use crate::data::{chris, experience_data, profile_data};
use crate::markup::{
    html_to_markdown, italic_close, italic_open, lemma_markdown_settled, markdown_of, occurs_at,
    occurs_in, strong_close, strong_open,
};
use crate::types::{
    experience_views, is_complete, opt_str, strs, work_views, About, AboutView, Chris, ChrisView,
    Experience, ExperienceView, Skills, SkillsView, Social, SocialView, Work, WorkView,
};

verus! {

broadcast use vstd::string::group_string_axioms;

/// A text block: the translated text and a blank line.
pub open spec fn para(s: Seq<char>) -> Seq<char> {
    markdown_of(s) + "\n\n"@
}

pub open spec fn opt_para(o: Option<Seq<char>>) -> Seq<char> {
    match o {
        Some(t) => para(t),
        None => Seq::empty(),
    }
}

/// One block per paragraph, in order.
pub open spec fn paragraphs_text(ps: Seq<Seq<char>>) -> Seq<char>
    decreases ps.len(),
{
    if ps.len() == 0 {
        Seq::empty()
    } else {
        paragraphs_text(ps.drop_last()) + para(ps.last())
    }
}

/// The translated items with `sep` between each two of them.
pub open spec fn joined(items: Seq<Seq<char>>, sep: Seq<char>) -> Seq<char>
    decreases items.len(),
{
    if items.len() == 0 {
        Seq::empty()
    } else if items.len() == 1 {
        markdown_of(items[0])
    } else {
        joined(items.drop_last(), sep) + sep + markdown_of(items.last())
    }
}

/// A bold label and a comma-separated list; nothing for an empty list.
pub open spec fn list_text(label: Seq<char>, items: Seq<Seq<char>>) -> Seq<char> {
    if items.len() == 0 {
        Seq::empty()
    } else {
        label + joined(items, ", "@) + "\n\n"@
    }
}

pub open spec fn about_text(a: AboutView) -> Seq<char> {
    "## About\n\n"@ + paragraphs_text(a.description) + opt_para(a.tag_line)
}

/// The skills section; the loved things are left out.
pub open spec fn skills_text(s: SkillsView) -> Seq<char> {
    "## Skills\n\n"@ + list_text("**Languages:** "@, s.languages) + list_text(
        "**Technologies:** "@,
        s.technologies,
    ) + list_text("**Tools:** "@, s.tools)
}

/// A complete entry gives a heading, its duration and its description; any
/// other entry gives nothing.
pub open spec fn experience_entry_text(e: ExperienceView) -> Seq<char> {
    if is_complete(e) {
        "### "@ + markdown_of(e.title->0) + " at "@ + markdown_of(e.location->0) + "\n\n"@
            + "**Duration:** "@ + markdown_of(e.duration->0) + "\n\n"@ + opt_para(
            e.description,
        )
    } else {
        Seq::empty()
    }
}

pub open spec fn experience_entries_text(es: Seq<ExperienceView>) -> Seq<char>
    decreases es.len(),
{
    if es.len() == 0 {
        Seq::empty()
    } else {
        experience_entries_text(es.drop_last()) + experience_entry_text(es.last())
    }
}

pub open spec fn experience_text(es: Seq<ExperienceView>) -> Seq<char> {
    "## Experience\n\n"@ + experience_entries_text(es)
}

pub open spec fn project_heading_text(title_md: Seq<char>, link: Option<Seq<char>>) -> Seq<char> {
    match link {
        Some(l) => "### ["@ + title_md + "]("@ + markdown_of(l) + ")\n\n"@,
        None => "### "@ + title_md + "\n\n"@,
    }
}

/// The date, with the location beside it when there is one; nothing without
/// a date.
pub open spec fn project_dates_text(date: Option<Seq<char>>, location: Option<Seq<char>>) -> Seq<
    char,
> {
    match date {
        Some(d) => match location {
            Some(l) => "**"@ + markdown_of(d) + "** | "@ + markdown_of(l) + "\n\n"@,
            None => "**"@ + markdown_of(d) + "**\n\n"@,
        },
        None => Seq::empty(),
    }
}

/// A project with a non-empty title; nothing for one without.
pub open spec fn project_text(w: WorkView) -> Seq<char> {
    match w.title {
        Some(t) => if t.len() > 0 {
            project_heading_text(markdown_of(t), w.link) + opt_para(w.sub_title)
                + project_dates_text(w.date, w.location) + list_text(
                "**Technologies:** "@,
                w.technologies,
            ) + paragraphs_text(w.description)
        } else {
            Seq::empty()
        },
        None => Seq::empty(),
    }
}

pub open spec fn project_entries_text(ws: Seq<WorkView>) -> Seq<char>
    decreases ws.len(),
{
    if ws.len() == 0 {
        Seq::empty()
    } else {
        project_entries_text(ws.drop_last()) + project_text(ws.last())
    }
}

pub open spec fn projects_text(ws: Seq<WorkView>) -> Seq<char> {
    "## Projects\n\n"@ + project_entries_text(ws) + "\n"@
}

/// The links: the résumé view, then the profile link, the code-hosting link
/// and the contact address as plain text.
pub open spec fn links_text(s: SocialView) -> Seq<char> {
    "## Links\n\n"@ + "- [Resume](/resume): Interactive resume explorer\n"@ + "- [LinkedIn]("@
        + markdown_of(s.linked_in) + ")\n"@ + "- [GitHub]("@ + markdown_of(s.github) + ")\n"@
        + "- Email: "@ + markdown_of(s.email) + "\n"@
}

/// The markdown document of a profile.
pub open spec fn document_text(c: ChrisView) -> Seq<char> {
    "# "@ + markdown_of(c.title) + "\n\n"@ + "> "@ + markdown_of(c.description) + "\n\n"@
        + about_text(c.about) + skills_text(c.skills) + experience_text(c.experience) + projects_text(
        c.work,
    ) + links_text(c.social)
}

fn render_paragraph(s: &str) -> (r: String)
    ensures
        r@ == para(s@),
{
    let mut r = html_to_markdown(s);
    r.append("\n\n");
    r
}

fn render_paragraphs(ps: &Vec<String>) -> (r: String)
    ensures
        r@ == paragraphs_text(strs(ps@)),
{
    let mut out = String::new();
    let mut i: usize = 0;
    while i < ps.len()
        invariant
            i <= ps@.len(),
            out@ == paragraphs_text(strs(ps@).subrange(0, i as int)),
        decreases ps@.len() - i,
    {
        let p = render_paragraph(ps[i].as_str());
        out.append(p.as_str());
        proof {
            assert(strs(ps@).subrange(0, i + 1).drop_last() =~= strs(ps@).subrange(0, i as int));
        }
        i = i + 1;
    }
    proof {
        assert(strs(ps@).subrange(0, ps@.len() as int) =~= strs(ps@));
    }
    out
}

fn join_strings(items: &Vec<String>, sep: &str) -> (r: String)
    ensures
        r@ == joined(strs(items@), sep@),
{
    let mut out = String::new();
    let mut i: usize = 0;
    while i < items.len()
        invariant
            i <= items@.len(),
            out@ == joined(strs(items@).subrange(0, i as int), sep@),
        decreases items@.len() - i,
    {
        proof {
            assert(strs(items@).subrange(0, i + 1).drop_last() =~= strs(items@).subrange(
                0,
                i as int,
            ));
        }
        if i > 0 {
            out.append(sep);
        }
        let item = html_to_markdown(items[i].as_str());
        out.append(item.as_str());
        proof {
            if i == 0 {
                assert(out@ =~= markdown_of(items@[0]@));
            }
        }
        i = i + 1;
    }
    proof {
        assert(strs(items@).subrange(0, items@.len() as int) =~= strs(items@));
    }
    out
}

fn render_list(label: &str, items: &Vec<String>) -> (r: String)
    ensures
        r@ == list_text(label@, strs(items@)),
{
    if items.len() == 0 {
        return String::new();
    }
    let mut out = label.to_string();
    let joined = join_strings(items, ", ");
    out.append(joined.as_str());
    out.append("\n\n");
    out
}

fn render_opt_paragraph(o: &Option<String>) -> (r: String)
    ensures
        r@ == opt_para(opt_str(*o)),
{
    match o {
        Some(t) => render_paragraph(t.as_str()),
        None => String::new(),
    }
}

fn render_about(a: &About) -> (r: String)
    ensures
        r@ == about_text(a@),
{
    let mut out = "## About\n\n".to_string();
    let ps = render_paragraphs(&a.description);
    out.append(ps.as_str());
    let tag = render_opt_paragraph(&a.tag_line);
    out.append(tag.as_str());
    out
}

fn render_skills(s: &Skills) -> (r: String)
    ensures
        r@ == skills_text(s@),
{
    let mut out = "## Skills\n\n".to_string();
    let languages = render_list("**Languages:** ", &s.languages);
    out.append(languages.as_str());
    let technologies = render_list("**Technologies:** ", &s.technologies);
    out.append(technologies.as_str());
    let tools = render_list("**Tools:** ", &s.tools);
    out.append(tools.as_str());
    out
}

fn render_experience_entry(e: &Experience) -> (r: String)
    ensures
        r@ == experience_entry_text(e@),
{
    if let Some(title) = &e.title {
        if let Some(location) = &e.location {
            if let Some(duration) = &e.duration {
                let mut out = "### ".to_string();
                let t = html_to_markdown(title.as_str());
                out.append(t.as_str());
                out.append(" at ");
                let l = html_to_markdown(location.as_str());
                out.append(l.as_str());
                out.append("\n\n");
                out.append("**Duration:** ");
                let d = html_to_markdown(duration.as_str());
                out.append(d.as_str());
                out.append("\n\n");
                let desc = render_opt_paragraph(&e.description);
                out.append(desc.as_str());
                return out;
            }
        }
    }
    String::new()
}

fn render_experience(es: &Vec<Experience>) -> (r: String)
    ensures
        r@ == experience_text(experience_views(es@)),
{
    let mut entries = String::new();
    let mut i: usize = 0;
    while i < es.len()
        invariant
            i <= es@.len(),
            entries@ == experience_entries_text(experience_views(es@).subrange(0, i as int)),
        decreases es@.len() - i,
    {
        let entry = render_experience_entry(&es[i]);
        entries.append(entry.as_str());
        proof {
            assert(experience_views(es@).subrange(0, i + 1).drop_last() =~= experience_views(
                es@,
            ).subrange(0, i as int));
        }
        i = i + 1;
    }
    proof {
        assert(experience_views(es@).subrange(0, es@.len() as int) =~= experience_views(es@));
    }
    let mut out = "## Experience\n\n".to_string();
    out.append(entries.as_str());
    out
}

fn render_project_heading(title_md: &str, link: &Option<String>) -> (r: String)
    ensures
        r@ == project_heading_text(title_md@, opt_str(*link)),
{
    match link {
        Some(l) => {
            let mut out = "### [".to_string();
            out.append(title_md);
            out.append("](");
            let lm = html_to_markdown(l.as_str());
            out.append(lm.as_str());
            out.append(")\n\n");
            out
        },
        None => {
            let mut out = "### ".to_string();
            out.append(title_md);
            out.append("\n\n");
            out
        },
    }
}

fn render_project_dates(date: &Option<String>, location: &Option<String>) -> (r: String)
    ensures
        r@ == project_dates_text(opt_str(*date), opt_str(*location)),
{
    match date {
        Some(d) => {
            let mut out = "**".to_string();
            let dm = html_to_markdown(d.as_str());
            out.append(dm.as_str());
            match location {
                Some(l) => {
                    out.append("** | ");
                    let lm = html_to_markdown(l.as_str());
                    out.append(lm.as_str());
                    out.append("\n\n");
                },
                None => {
                    out.append("**\n\n");
                },
            }
            out
        },
        None => String::new(),
    }
}

fn render_project(w: &Work) -> (r: String)
    ensures
        r@ == project_text(w@),
{
    match &w.title {
        Some(title) if !title.as_str().is_empty() => {
            let title_md = html_to_markdown(title.as_str());
            let mut out = render_project_heading(title_md.as_str(), &w.link);
            let sub = render_opt_paragraph(&w.sub_title);
            out.append(sub.as_str());
            let dates = render_project_dates(&w.date, &w.location);
            out.append(dates.as_str());
            let tech = render_list("**Technologies:** ", &w.technologies);
            out.append(tech.as_str());
            let ps = render_paragraphs(&w.description);
            out.append(ps.as_str());
            out
        },
        _ => String::new(),
    }
}

fn render_projects(ws: &Vec<Work>) -> (r: String)
    ensures
        r@ == projects_text(work_views(ws@)),
{
    let mut entries = String::new();
    let mut i: usize = 0;
    while i < ws.len()
        invariant
            i <= ws@.len(),
            entries@ == project_entries_text(work_views(ws@).subrange(0, i as int)),
        decreases ws@.len() - i,
    {
        let entry = render_project(&ws[i]);
        entries.append(entry.as_str());
        proof {
            assert(work_views(ws@).subrange(0, i + 1).drop_last() =~= work_views(ws@).subrange(
                0,
                i as int,
            ));
        }
        i = i + 1;
    }
    proof {
        assert(work_views(ws@).subrange(0, ws@.len() as int) =~= work_views(ws@));
    }
    let mut out = "## Projects\n\n".to_string();
    out.append(entries.as_str());
    out.append("\n");
    out
}

fn render_links(s: &Social) -> (r: String)
    ensures
        r@ == links_text(s@),
{
    let mut out = "## Links\n\n".to_string();
    out.append("- [Resume](/resume): Interactive resume explorer\n");
    out.append("- [LinkedIn](");
    let linked_in = html_to_markdown(s.linked_in.as_str());
    out.append(linked_in.as_str());
    out.append(")\n");
    out.append("- [GitHub](");
    let github = html_to_markdown(s.github.as_str());
    out.append(github.as_str());
    out.append(")\n");
    out.append("- Email: ");
    let email = html_to_markdown(s.email.as_str());
    out.append(email.as_str());
    out.append("\n");
    out
}

/// Renders a profile as a markdown document.
pub fn render_markdown(c: &Chris) -> (r: String)
    ensures
        r@ == document_text(c@),
{
    let mut out = "# ".to_string();
    let title = html_to_markdown(c.title.as_str());
    out.append(title.as_str());
    out.append("\n\n");
    out.append("> ");
    let summary = html_to_markdown(c.description.as_str());
    out.append(summary.as_str());
    out.append("\n\n");
    let about = render_about(&c.about);
    out.append(about.as_str());
    let skills = render_skills(&c.skills);
    out.append(skills.as_str());
    let experience = render_experience(&c.experience);
    out.append(experience.as_str());
    let projects = render_projects(&c.work);
    out.append(projects.as_str());
    let links = render_links(&c.social);
    out.append(links.as_str());
    out
}

/// The markdown document of the portfolio owner's profile.
pub fn generate_llms_txt() -> (r: String)
    ensures
        r@ == document_text(profile_data()),
{
    let c = chris();
    render_markdown(&c)
}

proof fn lemma_occurs_extend_right(a: Seq<char>, b: Seq<char>, q: Seq<char>, j: int)
    requires
        occurs_at(a, q, j),
    ensures
        occurs_at(a + b, q, j),
{
    assert((a + b).subrange(j, j + q.len()) =~= a.subrange(j, j + q.len()));
}

proof fn lemma_occurs_extend_left(a: Seq<char>, b: Seq<char>, q: Seq<char>, j: int)
    requires
        occurs_at(b, q, j),
    ensures
        occurs_at(a + b, q, j + a.len()),
{
    assert((a + b).subrange(j + a.len(), j + a.len() + q.len()) =~= b.subrange(j, j + q.len()));
}

/// A section that opens with `head` (a header line and a blank line) and
/// goes on with `rest` holds `header` at its start.
proof fn lemma_section_header(head: Seq<char>, header: Seq<char>, rest: Seq<char>)
    requires
        head =~= header + "\n\n"@,
    ensures
        occurs_at(head + rest, header, 0),
        (head + rest).len() > header.len(),
{
    reveal_strlit("\n\n");
    assert(head.subrange(0, header.len() as int) =~= header);
    lemma_occurs_extend_right(head, rest, header, 0);
}

/// The document opens with `# ` and the profile's title, and holds the
/// About, Skills, Experience, Projects and Links headers in that order.
pub proof fn lemma_document_layout(c: ChrisView)
    ensures
        document_text(c).len() >= markdown_of(c.title).len() + 2,
        document_text(c).subrange(0, markdown_of(c.title).len() + 2int) == "# "@ + markdown_of(c.title),
        exists|i1: int, i2: int, i3: int, i4: int, i5: int|
            i1 < i2 < i3 < i4 < i5 && occurs_at(document_text(c), "## About"@, i1) && occurs_at(
                document_text(c),
                "## Skills"@,
                i2,
            ) && occurs_at(document_text(c), "## Experience"@, i3) && occurs_at(
                document_text(c),
                "## Projects"@,
                i4,
            ) && occurs_at(document_text(c), "## Links"@, i5),
{
    reveal_strlit("\n\n");
    reveal_strlit("# ");
    reveal_strlit("## About");
    reveal_strlit("## About\n\n");
    reveal_strlit("## Skills");
    reveal_strlit("## Skills\n\n");
    reveal_strlit("## Experience");
    reveal_strlit("## Experience\n\n");
    reveal_strlit("## Projects");
    reveal_strlit("## Projects\n\n");
    reveal_strlit("## Links");
    reveal_strlit("## Links\n\n");
    let about = about_text(c.about);
    let skills = skills_text(c.skills);
    let exp = experience_text(c.experience);
    let proj = projects_text(c.work);
    let links = links_text(c.social);
    let opening = "# "@ + markdown_of(c.title);
    let a = opening + "\n\n"@ + "> "@ + markdown_of(c.description) + "\n\n"@;
    let b = a + about;
    let cc = b + skills;
    let d = cc + exp;
    let e = d + proj;
    let doc = e + links;
    assert(doc == document_text(c));
    assert(doc.subrange(0, markdown_of(c.title).len() + 2int) =~= opening);

    let about_rest = paragraphs_text(c.about.description) + opt_para(c.about.tag_line);
    assert(about =~= "## About\n\n"@ + about_rest);
    lemma_section_header("## About\n\n"@, "## About"@, about_rest);
    let skills_rest = list_text("**Languages:** "@, c.skills.languages) + list_text(
        "**Technologies:** "@,
        c.skills.technologies,
    ) + list_text("**Tools:** "@, c.skills.tools);
    assert(skills =~= "## Skills\n\n"@ + skills_rest);
    lemma_section_header("## Skills\n\n"@, "## Skills"@, skills_rest);
    lemma_section_header(
        "## Experience\n\n"@,
        "## Experience"@,
        experience_entries_text(c.experience),
    );
    let proj_rest = project_entries_text(c.work) + "\n"@;
    assert(proj =~= "## Projects\n\n"@ + proj_rest);
    lemma_section_header("## Projects\n\n"@, "## Projects"@, proj_rest);
    assert(links.subrange(0, 8) =~= "## Links"@);

    lemma_occurs_extend_left(a, about, "## About"@, 0);
    lemma_occurs_extend_right(b, skills, "## About"@, a.len() as int);
    lemma_occurs_extend_right(cc, exp, "## About"@, a.len() as int);
    lemma_occurs_extend_right(d, proj, "## About"@, a.len() as int);
    lemma_occurs_extend_right(e, links, "## About"@, a.len() as int);

    lemma_occurs_extend_left(b, skills, "## Skills"@, 0);
    lemma_occurs_extend_right(cc, exp, "## Skills"@, b.len() as int);
    lemma_occurs_extend_right(d, proj, "## Skills"@, b.len() as int);
    lemma_occurs_extend_right(e, links, "## Skills"@, b.len() as int);

    lemma_occurs_extend_left(cc, exp, "## Experience"@, 0);
    lemma_occurs_extend_right(d, proj, "## Experience"@, cc.len() as int);
    lemma_occurs_extend_right(e, links, "## Experience"@, cc.len() as int);

    lemma_occurs_extend_left(d, proj, "## Projects"@, 0);
    lemma_occurs_extend_right(e, links, "## Projects"@, d.len() as int);

    lemma_occurs_extend_left(e, links, "## Links"@, 0);

    assert(occurs_at(doc, "## About"@, a.len() as int));
    assert(occurs_at(doc, "## Skills"@, b.len() as int));
    assert(occurs_at(doc, "## Experience"@, cc.len() as int));
    assert(occurs_at(doc, "## Projects"@, d.len() as int));
    assert(occurs_at(doc, "## Links"@, e.len() as int));
}

/// The entries that count as complete.
pub open spec fn complete_entry() -> spec_fn(ExperienceView) -> bool {
    |e: ExperienceView| is_complete(e)
}

/// An experience entry without a title, a location or a duration adds
/// nothing to the document, a complete one adds a block that opens with an H3
/// heading, and the experience section is that of the complete entries alone.
pub proof fn lemma_experience_headings(es: Seq<ExperienceView>)
    ensures
        experience_entries_text(es) == experience_entries_text(es.filter(complete_entry())),
        forall|e: ExperienceView|
            !is_complete(e) ==> #[trigger] experience_entry_text(e) == Seq::<char>::empty(),
        forall|e: ExperienceView| is_complete(e) ==> occurs_at(#[trigger] experience_entry_text(e), "### "@, 0),
    decreases es.len(),
{
    reveal_strlit("### ");
    assert forall|e: ExperienceView| is_complete(e) implies occurs_at(
        #[trigger] experience_entry_text(e),
        "### "@,
        0,
    ) by {
        let t = experience_entry_text(e);
        assert(t.subrange(0, 4) =~= "### "@);
    }
    if es.len() == 0 {
        reveal(Seq::filter);
        assert(es.filter(complete_entry()) =~= es);
    } else {
        let init = es.drop_last();
        let last = es.last();
        lemma_experience_headings(init);
        assert(init.push(last) =~= es);
        init.lemma_filter_push(last, complete_entry());
        let f = init.filter(complete_entry());
        if is_complete(last) {
            assert(f.push(last).drop_last() =~= f);
        }
    }
}

/// A character that one of the emphasis tags holds.
pub open spec fn tag_char(c: char) -> bool {
    c == '<' || c == '>' || c == '/' || c == 's' || c == 't' || c == 'r' || c == 'o' || c == 'n'
        || c == 'g' || c == 'i'
}

/// No emphasis tag stands anywhere in `s`.
pub open spec fn tag_free(s: Seq<char>) -> bool {
    &&& !occurs_in(s, strong_open())
    &&& !occurs_in(s, strong_close())
    &&& !occurs_in(s, italic_open())
    &&& !occurs_in(s, italic_close())
}

spec fn opens_clear(s: Seq<char>) -> bool {
    s.len() == 0 || !tag_char(s[0])
}

spec fn closes_clear(s: Seq<char>) -> bool {
    s.len() == 0 || !tag_char(s.last())
}

/// Non-empty text that is free of tags and neither starts nor ends with a
/// tag character.
spec fn clear(s: Seq<char>) -> bool {
    s.len() > 0 && tag_free(s) && opens_clear(s) && closes_clear(s)
}

proof fn lemma_absent_concat(a: Seq<char>, b: Seq<char>, q: Seq<char>)
    requires
        q.len() > 0,
        forall|k: int| 0 <= k < q.len() ==> tag_char(#[trigger] q[k]),
        !occurs_in(a, q),
        !occurs_in(b, q),
        closes_clear(a) || opens_clear(b),
    ensures
        !occurs_in(a + b, q),
{
    let s = a + b;
    assert forall|j: int| !occurs_at(s, q, j) by {
        if occurs_at(s, q, j) {
            if j + q.len() <= a.len() {
                assert(a.subrange(j, j + q.len()) =~= s.subrange(j, j + q.len()));
                assert(occurs_at(a, q, j));
            } else if j >= a.len() {
                assert(b.subrange(j - a.len(), j - a.len() + q.len()) =~= s.subrange(j, j + q.len()));
                assert(occurs_at(b, q, j - a.len()));
            } else {
                assert(s.subrange(j, j + q.len())[a.len() - 1 - j] == a.last());
                assert(s.subrange(j, j + q.len())[a.len() - j] == b[0]);
                assert(tag_char(q[a.len() - 1 - j]));
                assert(tag_char(q[a.len() - j]));
            }
        }
    }
}

/// Joining two tag-free texts creates no tag where one side borders the
/// join with a character that no tag holds.
proof fn lemma_tag_free_concat(a: Seq<char>, b: Seq<char>)
    requires
        tag_free(a),
        tag_free(b),
        closes_clear(a) || opens_clear(b),
    ensures
        tag_free(a + b),
        opens_clear(a) && (a.len() > 0 || opens_clear(b)) ==> opens_clear(a + b),
        closes_clear(b) && (b.len() > 0 || closes_clear(a)) ==> closes_clear(a + b),
{
    reveal_strlit("<strong>");
    reveal_strlit("</strong>");
    reveal_strlit("<i>");
    reveal_strlit("</i>");
    lemma_absent_concat(a, b, strong_open());
    lemma_absent_concat(a, b, strong_close());
    lemma_absent_concat(a, b, italic_open());
    lemma_absent_concat(a, b, italic_close());
    if b.len() == 0 {
        assert(a + b =~= a);
    }
    if a.len() == 0 {
        assert(a + b =~= b);
    }
}

/// Text without `<` holds no tag.
proof fn lemma_no_open_bracket(s: Seq<char>)
    requires
        forall|i: int| 0 <= i < s.len() ==> s[i] != '<',
    ensures
        tag_free(s),
{
    reveal_strlit("<strong>");
    reveal_strlit("</strong>");
    reveal_strlit("<i>");
    reveal_strlit("</i>");
    assert forall|q: Seq<char>, j: int| q.len() > 0 && q[0] == '<' implies !occurs_at(s, q, j) by {
        if occurs_at(s, q, j) {
            assert(s.subrange(j, j + q.len())[0] == s[j]);
        }
    }
}

proof fn lemma_markdown_tag_free(s: Seq<char>)
    ensures
        tag_free(markdown_of(s)),
{
    lemma_markdown_settled(s);
}

proof fn lemma_literals_clear()
    ensures
        clear("\n\n"@),
        clear("\n"@),
        clear("# "@),
        "> "@.len() > 0 && tag_free("> "@) && closes_clear("> "@),
        clear("## About\n\n"@),
        clear("## Skills\n\n"@),
        clear("## Experience\n\n"@),
        clear("## Projects\n\n"@),
        clear("## Links\n\n"@),
        clear("**Languages:** "@),
        clear("**Technologies:** "@),
        clear("**Tools:** "@),
        clear(", "@),
        clear("### "@),
        clear(" at "@),
        clear("**Duration:** "@),
        clear("### ["@),
        clear("]("@),
        clear(")\n\n"@),
        clear("**"@),
        clear("** | "@),
        clear("**\n\n"@),
        clear("- [Resume](/resume): Interactive resume explorer\n"@),
        clear("- [LinkedIn]("@),
        clear(")\n"@),
        clear("- [GitHub]("@),
        clear("- Email: "@),
{
    reveal_strlit("\n\n");
    reveal_strlit("\n");
    reveal_strlit("# ");
    reveal_strlit("> ");
    reveal_strlit("## About\n\n");
    reveal_strlit("## Skills\n\n");
    reveal_strlit("## Experience\n\n");
    reveal_strlit("## Projects\n\n");
    reveal_strlit("## Links\n\n");
    reveal_strlit("**Languages:** ");
    reveal_strlit("**Technologies:** ");
    reveal_strlit("**Tools:** ");
    reveal_strlit(", ");
    reveal_strlit("### ");
    reveal_strlit(" at ");
    reveal_strlit("**Duration:** ");
    reveal_strlit("### [");
    reveal_strlit("](");
    reveal_strlit(")\n\n");
    reveal_strlit("**");
    reveal_strlit("** | ");
    reveal_strlit("**\n\n");
    reveal_strlit("- [Resume](/resume): Interactive resume explorer\n");
    reveal_strlit("- [LinkedIn](");
    reveal_strlit(")\n");
    reveal_strlit("- [GitHub](");
    reveal_strlit("- Email: ");
    lemma_no_open_bracket("\n\n"@);
    lemma_no_open_bracket("\n"@);
    lemma_no_open_bracket("# "@);
    lemma_no_open_bracket("> "@);
    lemma_no_open_bracket("## About\n\n"@);
    lemma_no_open_bracket("## Skills\n\n"@);
    lemma_no_open_bracket("## Experience\n\n"@);
    lemma_no_open_bracket("## Projects\n\n"@);
    lemma_no_open_bracket("## Links\n\n"@);
    lemma_no_open_bracket("**Languages:** "@);
    lemma_no_open_bracket("**Technologies:** "@);
    lemma_no_open_bracket("**Tools:** "@);
    lemma_no_open_bracket(", "@);
    lemma_no_open_bracket("### "@);
    lemma_no_open_bracket(" at "@);
    lemma_no_open_bracket("**Duration:** "@);
    lemma_no_open_bracket("### ["@);
    lemma_no_open_bracket("]("@);
    lemma_no_open_bracket(")\n\n"@);
    lemma_no_open_bracket("**"@);
    lemma_no_open_bracket("** | "@);
    lemma_no_open_bracket("**\n\n"@);
    lemma_no_open_bracket("- [Resume](/resume): Interactive resume explorer\n"@);
    lemma_no_open_bracket("- [LinkedIn]("@);
    lemma_no_open_bracket(")\n"@);
    lemma_no_open_bracket("- [GitHub]("@);
    lemma_no_open_bracket("- Email: "@);
}

proof fn lemma_para_tag_free(s: Seq<char>)
    ensures
        tag_free(para(s)),
        closes_clear(para(s)),
        para(s).len() > 0,
{
    lemma_literals_clear();
    lemma_markdown_tag_free(s);
    lemma_tag_free_concat(markdown_of(s), "\n\n"@);
}

proof fn lemma_opt_para_tag_free(o: Option<Seq<char>>)
    ensures
        tag_free(opt_para(o)),
        closes_clear(opt_para(o)),
{
    match o {
        Some(t) => lemma_para_tag_free(t),
        None => lemma_no_open_bracket(Seq::<char>::empty()),
    }
}

proof fn lemma_paragraphs_tag_free(ps: Seq<Seq<char>>)
    ensures
        tag_free(paragraphs_text(ps)),
        closes_clear(paragraphs_text(ps)),
    decreases ps.len(),
{
    if ps.len() == 0 {
        lemma_no_open_bracket(Seq::<char>::empty());
    } else {
        lemma_paragraphs_tag_free(ps.drop_last());
        lemma_para_tag_free(ps.last());
        lemma_tag_free_concat(paragraphs_text(ps.drop_last()), para(ps.last()));
    }
}

proof fn lemma_joined_tag_free(items: Seq<Seq<char>>)
    ensures
        tag_free(joined(items, ", "@)),
    decreases items.len(),
{
    lemma_literals_clear();
    if items.len() == 0 {
        lemma_no_open_bracket(Seq::<char>::empty());
    } else if items.len() == 1 {
        lemma_markdown_tag_free(items[0]);
    } else {
        let init = joined(items.drop_last(), ", "@);
        lemma_joined_tag_free(items.drop_last());
        lemma_markdown_tag_free(items.last());
        lemma_tag_free_concat(init, ", "@);
        lemma_tag_free_concat(init + ", "@, markdown_of(items.last()));
    }
}

proof fn lemma_list_tag_free(label: Seq<char>, items: Seq<Seq<char>>)
    requires
        clear(label),
        label.len() > 0,
    ensures
        tag_free(list_text(label, items)),
        opens_clear(list_text(label, items)),
        closes_clear(list_text(label, items)),
{
    lemma_literals_clear();
    if items.len() == 0 {
        lemma_no_open_bracket(Seq::<char>::empty());
    } else {
        let j = joined(items, ", "@);
        lemma_joined_tag_free(items);
        lemma_tag_free_concat(label, j);
        lemma_tag_free_concat(label + j, "\n\n"@);
    }
}

proof fn lemma_about_tag_free(a: AboutView)
    ensures
        tag_free(about_text(a)),
        opens_clear(about_text(a)),
{
    lemma_literals_clear();
    let h = "## About\n\n"@;
    let p = paragraphs_text(a.description);
    lemma_paragraphs_tag_free(a.description);
    lemma_opt_para_tag_free(a.tag_line);
    lemma_tag_free_concat(h, p);
    lemma_tag_free_concat(h + p, opt_para(a.tag_line));
}

proof fn lemma_skills_tag_free(s: SkillsView)
    ensures
        tag_free(skills_text(s)),
        opens_clear(skills_text(s)),
{
    lemma_literals_clear();
    reveal_strlit("**Languages:** ");
    reveal_strlit("**Technologies:** ");
    reveal_strlit("**Tools:** ");
    let h = "## Skills\n\n"@;
    let l1 = list_text("**Languages:** "@, s.languages);
    let l2 = list_text("**Technologies:** "@, s.technologies);
    let l3 = list_text("**Tools:** "@, s.tools);
    lemma_list_tag_free("**Languages:** "@, s.languages);
    lemma_list_tag_free("**Technologies:** "@, s.technologies);
    lemma_list_tag_free("**Tools:** "@, s.tools);
    lemma_tag_free_concat(h, l1);
    lemma_tag_free_concat(h + l1, l2);
    lemma_tag_free_concat(h + l1 + l2, l3);
}

proof fn lemma_experience_entry_tag_free(e: ExperienceView)
    ensures
        tag_free(experience_entry_text(e)),
        closes_clear(experience_entry_text(e)),
{
    lemma_literals_clear();
    reveal_strlit("### ");
    reveal_strlit(" at ");
    reveal_strlit("**Duration:** ");
    reveal_strlit("\n\n");
    if is_complete(e) {
        let mt = markdown_of(e.title->0);
        let ml = markdown_of(e.location->0);
        let md = markdown_of(e.duration->0);
        lemma_markdown_tag_free(e.title->0);
        lemma_markdown_tag_free(e.location->0);
        lemma_markdown_tag_free(e.duration->0);
        lemma_opt_para_tag_free(e.description);
        let s1 = "### "@ + mt;
        lemma_tag_free_concat("### "@, mt);
        lemma_tag_free_concat(s1, " at "@);
        lemma_tag_free_concat(s1 + " at "@, ml);
        let s2 = s1 + " at "@ + ml;
        lemma_tag_free_concat(s2, "\n\n"@);
        lemma_tag_free_concat(s2 + "\n\n"@, "**Duration:** "@);
        let s3 = s2 + "\n\n"@ + "**Duration:** "@;
        lemma_tag_free_concat(s3, md);
        lemma_tag_free_concat(s3 + md, "\n\n"@);
        lemma_tag_free_concat(s3 + md + "\n\n"@, opt_para(e.description));
    } else {
        lemma_no_open_bracket(Seq::<char>::empty());
    }
}

proof fn lemma_experience_entries_tag_free(es: Seq<ExperienceView>)
    ensures
        tag_free(experience_entries_text(es)),
        closes_clear(experience_entries_text(es)),
    decreases es.len(),
{
    if es.len() == 0 {
        lemma_no_open_bracket(Seq::<char>::empty());
    } else {
        lemma_experience_entries_tag_free(es.drop_last());
        lemma_experience_entry_tag_free(es.last());
        lemma_tag_free_concat(
            experience_entries_text(es.drop_last()),
            experience_entry_text(es.last()),
        );
    }
}

proof fn lemma_project_tag_free(w: WorkView)
    ensures
        tag_free(project_text(w)),
        closes_clear(project_text(w)),
{
    lemma_literals_clear();
    reveal_strlit("### ");
    reveal_strlit("### [");
    reveal_strlit("](");
    reveal_strlit(")\n\n");
    reveal_strlit("\n\n");
    reveal_strlit("**");
    reveal_strlit("** | ");
    reveal_strlit("**\n\n");
    reveal_strlit("**Technologies:** ");
    match w.title {
        Some(t) => {
            if t.len() > 0 {
                let mt = markdown_of(t);
                lemma_markdown_tag_free(t);
                let h = project_heading_text(mt, w.link);
                match w.link {
                    Some(l) => {
                        lemma_markdown_tag_free(l);
                        lemma_tag_free_concat("### ["@, mt);
                        lemma_tag_free_concat("### ["@ + mt, "]("@);
                        lemma_tag_free_concat("### ["@ + mt + "]("@, markdown_of(l));
                        lemma_tag_free_concat("### ["@ + mt + "]("@ + markdown_of(l), ")\n\n"@);
                    },
                    None => {
                        lemma_tag_free_concat("### "@, mt);
                        lemma_tag_free_concat("### "@ + mt, "\n\n"@);
                    },
                }
                let dates = project_dates_text(w.date, w.location);
                match w.date {
                    Some(d) => {
                        let mdd = markdown_of(d);
                        lemma_markdown_tag_free(d);
                        lemma_tag_free_concat("**"@, mdd);
                        match w.location {
                            Some(l) => {
                                lemma_markdown_tag_free(l);
                                lemma_tag_free_concat("**"@ + mdd, "** | "@);
                                lemma_tag_free_concat("**"@ + mdd + "** | "@, markdown_of(l));
                                lemma_tag_free_concat(
                                    "**"@ + mdd + "** | "@ + markdown_of(l),
                                    "\n\n"@,
                                );
                            },
                            None => {
                                lemma_tag_free_concat("**"@ + mdd, "**\n\n"@);
                            },
                        }
                    },
                    None => lemma_no_open_bracket(Seq::<char>::empty()),
                }
                let sub = opt_para(w.sub_title);
                let tech = list_text("**Technologies:** "@, w.technologies);
                let ps = paragraphs_text(w.description);
                lemma_opt_para_tag_free(w.sub_title);
                lemma_list_tag_free("**Technologies:** "@, w.technologies);
                lemma_paragraphs_tag_free(w.description);
                lemma_tag_free_concat(h, sub);
                lemma_tag_free_concat(h + sub, dates);
                lemma_tag_free_concat(h + sub + dates, tech);
                lemma_tag_free_concat(h + sub + dates + tech, ps);
            } else {
                lemma_no_open_bracket(Seq::<char>::empty());
            }
        },
        None => lemma_no_open_bracket(Seq::<char>::empty()),
    }
}

proof fn lemma_project_entries_tag_free(ws: Seq<WorkView>)
    ensures
        tag_free(project_entries_text(ws)),
        closes_clear(project_entries_text(ws)),
    decreases ws.len(),
{
    if ws.len() == 0 {
        lemma_no_open_bracket(Seq::<char>::empty());
    } else {
        lemma_project_entries_tag_free(ws.drop_last());
        lemma_project_tag_free(ws.last());
        lemma_tag_free_concat(project_entries_text(ws.drop_last()), project_text(ws.last()));
    }
}

proof fn lemma_links_tag_free(s: SocialView)
    ensures
        tag_free(links_text(s)),
        opens_clear(links_text(s)),
{
    lemma_literals_clear();
    reveal_strlit("## Links\n\n");
    reveal_strlit("- [Resume](/resume): Interactive resume explorer\n");
    reveal_strlit("- [LinkedIn](");
    reveal_strlit(")\n");
    reveal_strlit("- [GitHub](");
    reveal_strlit("- Email: ");
    reveal_strlit("\n");
    lemma_markdown_tag_free(s.linked_in);
    lemma_markdown_tag_free(s.github);
    lemma_markdown_tag_free(s.email);
    let a0 = "## Links\n\n"@ + "- [Resume](/resume): Interactive resume explorer\n"@;
    lemma_tag_free_concat("## Links\n\n"@, "- [Resume](/resume): Interactive resume explorer\n"@);
    lemma_tag_free_concat(a0, "- [LinkedIn]("@);
    let a1 = a0 + "- [LinkedIn]("@;
    lemma_tag_free_concat(a1, markdown_of(s.linked_in));
    lemma_tag_free_concat(a1 + markdown_of(s.linked_in), ")\n"@);
    let a2 = a1 + markdown_of(s.linked_in) + ")\n"@;
    lemma_tag_free_concat(a2, "- [GitHub]("@);
    lemma_tag_free_concat(a2 + "- [GitHub]("@, markdown_of(s.github));
    let a3 = a2 + "- [GitHub]("@ + markdown_of(s.github);
    lemma_tag_free_concat(a3, ")\n"@);
    lemma_tag_free_concat(a3 + ")\n"@, "- Email: "@);
    let a4 = a3 + ")\n"@ + "- Email: "@;
    lemma_tag_free_concat(a4, markdown_of(s.email));
    lemma_tag_free_concat(a4 + markdown_of(s.email), "\n"@);
}

/// No `<strong>`, `</strong>`, `<i>` or `</i>` tag stands anywhere in the
/// markdown document of any profile.
pub proof fn lemma_document_tag_free(c: ChrisView)
    ensures
        tag_free(document_text(c)),
{
    lemma_literals_clear();
    reveal_strlit("## Experience\n\n");
    reveal_strlit("## Projects\n\n");
    reveal_strlit("\n");
    let mt = markdown_of(c.title);
    let md = markdown_of(c.description);
    lemma_markdown_tag_free(c.title);
    lemma_markdown_tag_free(c.description);
    lemma_about_tag_free(c.about);
    lemma_skills_tag_free(c.skills);
    lemma_experience_entries_tag_free(c.experience);
    lemma_project_entries_tag_free(c.work);
    lemma_links_tag_free(c.social);
    let exp_h = "## Experience\n\n"@;
    lemma_tag_free_concat(exp_h, experience_entries_text(c.experience));
    let proj_h = "## Projects\n\n"@;
    lemma_tag_free_concat(proj_h, project_entries_text(c.work));
    lemma_tag_free_concat(proj_h + project_entries_text(c.work), "\n"@);

    lemma_tag_free_concat("# "@, mt);
    let a1 = "# "@ + mt;
    lemma_tag_free_concat(a1, "\n\n"@);
    lemma_tag_free_concat(a1 + "\n\n"@, "> "@);
    let a2 = a1 + "\n\n"@ + "> "@;
    lemma_tag_free_concat(a2, md);
    lemma_tag_free_concat(a2 + md, "\n\n"@);
    let a3 = a2 + md + "\n\n"@;
    let about = about_text(c.about);
    let skills = skills_text(c.skills);
    let exp = experience_text(c.experience);
    let proj = projects_text(c.work);
    lemma_tag_free_concat(a3, about);
    lemma_tag_free_concat(a3 + about, skills);
    lemma_tag_free_concat(a3 + about + skills, exp);
    lemma_tag_free_concat(a3 + about + skills + exp, proj);
    lemma_tag_free_concat(a3 + about + skills + exp + proj, links_text(c.social));
}

/// Of the profile's seven experience entries, the first lacks its title and
/// the other six are complete, so the rendered experience section is that of
/// those six entries.
pub proof fn lemma_profile_experience_headings()
    ensures
        experience_data().len() == 7,
        !is_complete(experience_data()[0]),
        experience_data().filter(complete_entry()).len() == 6,
        experience_entries_text(experience_data()) == experience_entries_text(
            experience_data().filter(complete_entry()),
        ),
{
    let s = experience_data();
    let f = complete_entry();
    lemma_experience_headings(s);
    reveal(Seq::filter);
    assert(s.subrange(0, 0).filter(f) =~= Seq::<ExperienceView>::empty());
    assert forall|k: int| 0 <= k < 7 implies #[trigger] s.subrange(0, k + 1) =~= s.subrange(
        0,
        k,
    ).push(s[k]) by {}
    s.subrange(0, 0).lemma_filter_push(s[0], f);
    s.subrange(0, 1).lemma_filter_push(s[1], f);
    s.subrange(0, 2).lemma_filter_push(s[2], f);
    s.subrange(0, 3).lemma_filter_push(s[3], f);
    s.subrange(0, 4).lemma_filter_push(s[4], f);
    s.subrange(0, 5).lemma_filter_push(s[5], f);
    s.subrange(0, 6).lemma_filter_push(s[6], f);
    assert(s.subrange(0, 7) =~= s);
}

} // verus!
