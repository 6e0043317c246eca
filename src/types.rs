use vstd::prelude::*;

verus! {

/// Root of the read operations of the graph.
pub struct QueryRoot;

/// Root of the write operations of the graph.
pub struct MutationRoot;

/// A contact-form submission.
#[derive(Clone, Debug)]
pub struct ContactMeInput {
    pub from: String,
    pub name: String,
    pub subject: String,
    pub body: String,
}

/// Outcome of a contact-form submission.
#[derive(Clone, Debug)]
pub struct ContactMePayload {
    pub success: bool,
}

#[derive(Clone, Debug)]
pub struct Skills {
    pub languages: Vec<String>,
    pub technologies: Vec<String>,
    pub tools: Vec<String>,
    pub loves: Vec<String>,
}

#[derive(Clone, Debug)]
pub struct About {
    pub description: Vec<String>,
    pub image_url: Option<String>,
    pub image_caption: Option<String>,
    pub image_title: Option<String>,
    pub tag_line: Option<String>,
}

#[derive(Clone, Debug)]
pub struct Experience {
    pub duration: Option<String>,
    pub title: Option<String>,
    pub location: Option<String>,
    pub description: Option<String>,
    pub image_url: Option<String>,
}

#[derive(Clone, Debug)]
pub struct Work {
    pub title: Option<String>,
    pub sub_title: Option<String>,
    pub description: Vec<String>,
    pub location: Option<String>,
    pub link: Option<String>,
    pub video: Option<String>,
    pub date: Option<String>,
    pub image_url: Option<String>,
    pub technologies: Vec<String>,
}

#[derive(Clone, Debug)]
pub struct Social {
    pub linked_in: String,
    pub github: String,
    pub email: String,
}

/// The portfolio owner's profile.
#[derive(Clone, Debug)]
pub struct Chris {
    pub id: String,
    pub title: String,
    pub description: String,
    pub skills: Skills,
    pub experience: Vec<Experience>,
    pub about: About,
    pub work: Vec<Work>,
    pub social: Social,
}

/// The characters of each string, in order.
pub open spec fn strs(v: Seq<String>) -> Seq<Seq<char>> {
    v.map_values(|s: String| s@)
}

pub open spec fn opt_str(o: Option<String>) -> Option<Seq<char>> {
    match o {
        Some(s) => Some(s@),
        None => None,
    }
}

pub struct SkillsView {
    pub languages: Seq<Seq<char>>,
    pub technologies: Seq<Seq<char>>,
    pub tools: Seq<Seq<char>>,
    pub loves: Seq<Seq<char>>,
}

pub struct AboutView {
    pub description: Seq<Seq<char>>,
    pub image_url: Option<Seq<char>>,
    pub image_caption: Option<Seq<char>>,
    pub image_title: Option<Seq<char>>,
    pub tag_line: Option<Seq<char>>,
}

pub struct ExperienceView {
    pub duration: Option<Seq<char>>,
    pub title: Option<Seq<char>>,
    pub location: Option<Seq<char>>,
    pub description: Option<Seq<char>>,
    pub image_url: Option<Seq<char>>,
}

pub struct WorkView {
    pub title: Option<Seq<char>>,
    pub sub_title: Option<Seq<char>>,
    pub description: Seq<Seq<char>>,
    pub location: Option<Seq<char>>,
    pub link: Option<Seq<char>>,
    pub video: Option<Seq<char>>,
    pub date: Option<Seq<char>>,
    pub image_url: Option<Seq<char>>,
    pub technologies: Seq<Seq<char>>,
}

pub struct SocialView {
    pub linked_in: Seq<char>,
    pub github: Seq<char>,
    pub email: Seq<char>,
}

pub struct ChrisView {
    pub id: Seq<char>,
    pub title: Seq<char>,
    pub description: Seq<char>,
    pub skills: SkillsView,
    pub experience: Seq<ExperienceView>,
    pub about: AboutView,
    pub work: Seq<WorkView>,
    pub social: SocialView,
}

impl View for Skills {
    type V = SkillsView;

    open spec fn view(&self) -> SkillsView {
        SkillsView {
            languages: strs(self.languages@),
            technologies: strs(self.technologies@),
            tools: strs(self.tools@),
            loves: strs(self.loves@),
        }
    }
}

impl View for About {
    type V = AboutView;

    open spec fn view(&self) -> AboutView {
        AboutView {
            description: strs(self.description@),
            image_url: opt_str(self.image_url),
            image_caption: opt_str(self.image_caption),
            image_title: opt_str(self.image_title),
            tag_line: opt_str(self.tag_line),
        }
    }
}

impl View for Experience {
    type V = ExperienceView;

    open spec fn view(&self) -> ExperienceView {
        ExperienceView {
            duration: opt_str(self.duration),
            title: opt_str(self.title),
            location: opt_str(self.location),
            description: opt_str(self.description),
            image_url: opt_str(self.image_url),
        }
    }
}

impl View for Work {
    type V = WorkView;

    open spec fn view(&self) -> WorkView {
        WorkView {
            title: opt_str(self.title),
            sub_title: opt_str(self.sub_title),
            description: strs(self.description@),
            location: opt_str(self.location),
            link: opt_str(self.link),
            video: opt_str(self.video),
            date: opt_str(self.date),
            image_url: opt_str(self.image_url),
            technologies: strs(self.technologies@),
        }
    }
}

impl View for Social {
    type V = SocialView;

    open spec fn view(&self) -> SocialView {
        SocialView { linked_in: self.linked_in@, github: self.github@, email: self.email@ }
    }
}

pub open spec fn experience_views(es: Seq<Experience>) -> Seq<ExperienceView> {
    es.map_values(|e: Experience| e@)
}

pub open spec fn work_views(ws: Seq<Work>) -> Seq<WorkView> {
    ws.map_values(|w: Work| w@)
}

impl View for Chris {
    type V = ChrisView;

    open spec fn view(&self) -> ChrisView {
        ChrisView {
            id: self.id@,
            title: self.title@,
            description: self.description@,
            skills: self.skills@,
            experience: experience_views(self.experience@),
            about: self.about@,
            work: work_views(self.work@),
            social: self.social@,
        }
    }
}

/// An experience entry with a title, a location and a duration.
pub open spec fn is_complete(e: ExperienceView) -> bool {
    e.title is Some && e.location is Some && e.duration is Some
}

} // verus!
