//! The bot's persona: named markdown files that define its behaviour,
//! combined with the user profile and the tool catalog into the system
//! prompt.  Reading and writing the files is storage plumbing outside the
//! library; the library names the files and assembles the prompt.

use vstd::prelude::*;

verus! {

/// Names the persona files and assembles the system prompt.
pub struct IdentityManager {
    persona_dir: String,
}

/// A prompt section: a header and a body, omitted entirely when the body is
/// empty.
pub open spec fn section(header: Seq<char>, body: Seq<char>) -> Seq<char> {
    if body.len() == 0 {
        Seq::empty()
    } else {
        header + body + "\n\n"@
    }
}

/// The full system prompt assembled from the persona file contents, the user
/// profile and the tool catalog text, ending with the fixed response
/// guidelines.
pub open spec fn system_prompt_spec(
    soul: Seq<char>,
    persona: Seq<char>,
    security: Seq<char>,
    user_profile: Seq<char>,
    tools_desc: Seq<char>,
) -> Seq<char> {
    section("## Core Philosophy\n"@, soul) + section("## Personality\n"@, persona) + section(
        "## Security Rules\n"@,
        security,
    ) + section("## About the User\n"@, user_profile) + section("## Available Tools\n"@, tools_desc)
        + "## Response Guidelines\n"@
        + "- If the user sends a voice message, it has been transcribed for you. Respond naturally.\n- Keep responses concise for voice output (they will be spoken aloud via TTS).\n- You can use tools by responding with a JSON tool call.\n"@
}

impl IdentityManager {
    /// The directory that holds the persona files.
    pub closed spec fn dir(&self) -> Seq<char> {
        self.persona_dir@
    }

    pub fn new(persona_dir: &str) -> (r: IdentityManager)
        ensures
            r.dir() == persona_dir@,
    {
        IdentityManager { persona_dir: persona_dir.to_owned() }
    }

    /// The path of a persona file, `<dir>/<name>.md`.
    pub fn file_path(&self, name: &str) -> (r: String)
        ensures
            r@ == self.dir() + "/"@ + name@ + ".md"@,
    {
        let mut path = self.persona_dir.clone();
        path.append("/");
        path.append(name);
        path.append(".md");
        path
    }

    /// Assemble the system prompt from the loaded persona file contents, the
    /// user profile and the tool catalog text.  Empty parts leave no section
    /// behind.
    pub fn build_system_prompt(
        &self,
        soul: &str,
        persona: &str,
        security: &str,
        user_profile: &str,
        tools_desc: &str,
    ) -> (r: String)
        ensures
            r@ == system_prompt_spec(soul@, persona@, security@, user_profile@, tools_desc@),
    {
        let mut prompt = String::new();
        if !soul.is_empty() {
            prompt.append("## Core Philosophy\n");
            prompt.append(soul);
            prompt.append("\n\n");
        }
        if !persona.is_empty() {
            prompt.append("## Personality\n");
            prompt.append(persona);
            prompt.append("\n\n");
        }
        if !security.is_empty() {
            prompt.append("## Security Rules\n");
            prompt.append(security);
            prompt.append("\n\n");
        }
        if !user_profile.is_empty() {
            prompt.append("## About the User\n");
            prompt.append(user_profile);
            prompt.append("\n\n");
        }
        if !tools_desc.is_empty() {
            prompt.append("## Available Tools\n");
            prompt.append(tools_desc);
            prompt.append("\n\n");
        }
        prompt.append("## Response Guidelines\n");
        prompt.append(
            "- If the user sends a voice message, it has been transcribed for you. Respond naturally.\n- Keep responses concise for voice output (they will be spoken aloud via TTS).\n- You can use tools by responding with a JSON tool call.\n",
        );
        proof {
            assert(prompt@ =~= system_prompt_spec(
                soul@,
                persona@,
                security@,
                user_profile@,
                tools_desc@,
            ));
        }
        prompt
    }
}

} // verus!
