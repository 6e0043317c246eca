use portfolio_api::data::chris;
use portfolio_api::llms::{generate_llms_txt, render_markdown};
use portfolio_api::markup::html_to_markdown;
use portfolio_api::types::{About, Chris, Experience, Skills, Social, Work};

#[test]
fn test_html_to_markdown() {
    assert_eq!(
        html_to_markdown("This is <strong>bold</strong> and <i>italic</i>"),
        "This is **bold** and *italic*"
    );
}

#[test]
fn test_generate_llms_txt() {
    let output = generate_llms_txt();

    assert!(output.starts_with("# Chris Driscol"));
    assert!(output.contains("## About"));
    assert!(output.contains("## Skills"));
    assert!(output.contains("## Experience"));
    assert!(output.contains("## Projects"));
    assert!(output.contains("## Links"));

    assert!(!output.contains("<strong>"));
    assert!(!output.contains("<i>"));
}

#[test]
fn markdown_translation_is_idempotent() {
    let once = html_to_markdown("<strong>a</strong> <i>b</i> I <i class=\"fa fa-heart\"></i> it");
    assert_eq!(once, "**a** *b* I \u{2764}\u{fe0f} it");
    assert_eq!(html_to_markdown(&once), once);
    for tag in ["<strong>", "</strong>", "<i>", "</i>"] {
        assert!(!once.contains(tag));
    }
}

#[test]
fn heart_icon_becomes_glyph() {
    assert_eq!(html_to_markdown("I <i class=\"fa fa-heart\"></i> code"), "I \u{2764}\u{fe0f} code");
}

#[test]
fn unknown_markup_passes_through() {
    assert_eq!(html_to_markdown("<em>x</em> <b>y</b>"), "<em>x</em> <b>y</b>");
    assert_eq!(html_to_markdown(""), "");
}

#[test]
fn sections_appear_in_order() {
    let output = generate_llms_txt();
    let about = output.find("## About").unwrap();
    let skills = output.find("## Skills").unwrap();
    let experience = output.find("## Experience").unwrap();
    let projects = output.find("## Projects").unwrap();
    let links = output.find("## Links").unwrap();
    assert!(about < skills && skills < experience && experience < projects && projects < links);
    assert!(output.starts_with("# Chris Driscol | VP of Engineering in Colorado\n\n> "));
    assert!(output.ends_with("- Email: chris@driscolsoftware.com\n"));
    assert!(output.contains("\u{2764}\u{fe0f} working on **Agile teams**"));
}

#[test]
fn only_complete_experience_gets_heading() {
    let output = generate_llms_txt();
    let start = output.find("## Experience").unwrap();
    let end = output.find("## Projects").unwrap();
    let section = &output[start..end];
    let complete = chris()
        .experience
        .iter()
        .filter(|e| e.title.is_some() && e.location.is_some() && e.duration.is_some())
        .count();
    assert_eq!(section.matches("### ").count(), complete);
    assert_eq!(complete, 6);
    assert!(!section.contains("High School"));
}

fn small_profile() -> Chris {
    Chris {
        id: "x".to_string(),
        title: "T".to_string(),
        description: "<i>d</i>".to_string(),
        skills: Skills {
            languages: vec!["Rust".to_string(), "C".to_string()],
            technologies: vec![],
            tools: vec!["git".to_string()],
            loves: vec!["Hiking".to_string()],
        },
        experience: vec![
            Experience {
                duration: Some("2001".to_string()),
                title: None,
                location: Some("School".to_string()),
                description: Some("early".to_string()),
                image_url: None,
            },
            Experience {
                duration: Some("2020".to_string()),
                title: Some("Dev".to_string()),
                location: Some("Home".to_string()),
                description: None,
                image_url: None,
            },
        ],
        about: About {
            description: vec!["p1".to_string()],
            image_url: None,
            image_caption: None,
            image_title: None,
            tag_line: None,
        },
        work: vec![
            Work {
                title: Some("P".to_string()),
                sub_title: None,
                description: vec!["w".to_string()],
                location: Some("L".to_string()),
                link: Some("http://p".to_string()),
                video: None,
                date: None,
                image_url: None,
                technologies: vec![],
            },
            Work {
                title: Some("Q".to_string()),
                sub_title: Some("s".to_string()),
                description: vec![],
                location: None,
                link: None,
                video: None,
                date: Some("2012".to_string()),
                image_url: None,
                technologies: vec!["a".to_string(), "b".to_string()],
            },
            Work {
                title: None,
                sub_title: Some("hidden".to_string()),
                description: vec![],
                location: None,
                link: None,
                video: None,
                date: None,
                image_url: None,
                technologies: vec![],
            },
        ],
        social: Social {
            linked_in: "li".to_string(),
            github: "gh".to_string(),
            email: "e@x".to_string(),
        },
    }
}

#[test]
fn renders_small_profile_exactly() {
    let expected = "# T\n\n> *d*\n\n## About\n\np1\n\n## Skills\n\n**Languages:** Rust, C\n\n**Tools:** git\n\n## Experience\n\n### Dev at Home\n\n**Duration:** 2020\n\n## Projects\n\n### [P](http://p)\n\nw\n\n### Q\n\ns\n\n**2012**\n\n**Technologies:** a, b\n\n\n## Links\n\n- [Resume](/resume): Interactive resume explorer\n- [LinkedIn](li)\n- [GitHub](gh)\n- Email: e@x\n";
    assert_eq!(render_markdown(&small_profile()), expected);
}

#[test]
fn project_with_date_and_location() {
    let mut p = small_profile();
    p.work[0].date = Some("2017".to_string());
    let out = render_markdown(&p);
    assert!(out.contains("**2017** | L\n\n"));
    assert!(!out.contains("Hiking"));
}

#[test]
fn project_with_empty_title_is_skipped() {
    let mut p = small_profile();
    p.work[1].title = Some(String::new());
    let out = render_markdown(&p);
    assert!(!out.contains("**2012**"));
    assert!(out.contains("### [P](http://p)\n\nw\n\n\n## Links"));
}

#[test]
fn every_rendered_field_is_translated() {
    let mut p = small_profile();
    p.title = "<strong>T</strong>".to_string();
    p.skills.languages = vec!["<i>Rust</i>".to_string()];
    p.social.email = "<strong>e</strong>".to_string();
    let out = render_markdown(&p);
    assert!(out.starts_with("# **T**\n\n"));
    assert!(out.contains("**Languages:** *Rust*\n\n"));
    assert!(out.ends_with("- Email: **e**\n"));
    assert!(!out.contains("<strong>") && !out.contains("<i>"));
}

#[test]
fn document_text_of_real_profile() {
    let output = generate_llms_txt();
    assert!(output.contains("I \u{2764}\u{fe0f} working on **Agile teams** motivated by **delivering customer value** early and often.\n\n## Skills"));
    assert!(!output.contains("fa-heart"));
    assert!(output.contains("### Intern Programmer/Analyst at Mayo Clinic, Rochester, MN\n\n**Duration:** Summer 2007\n\nWas a key member"));
    assert!(output.contains("### [CommercialTribe](https://www.commercialtribe.com/)\n\n"));
    assert!(output.contains("**2015-Present** | CommercialTribe\n\n**Technologies:** React, React-Native"));
    assert!(!output.contains("React Storybook"));
    assert!(!output.contains("mailto:"));
    assert_eq!(output.lines().filter(|l| l.starts_with("## ")).count(), 5);
}
