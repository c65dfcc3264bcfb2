//! The image service: the session of generated images, and how an edit finds
//! the image it refers to.
use vstd::prelude::*;
use crate::domain::config::{AppConfig, OutputFormat};
use crate::domain::errors::{is_image_error, image_error_text, DomainError, DomainResult};
use crate::domain::session::SessionStore;
use crate::domain::traits::GenerateParams;
use crate::infrastructure::factory::ProviderClient;
use crate::infrastructure::id::{create_id, is_cuid};
use crate::text::owned;

verus! {

/// An image recorded in the session: its identifier and its data or URL.
#[derive(Debug, Clone)]
pub struct StoredImage {
    pub id: String,
    pub data: String,
}

/// How a recorded image is handed back.
#[derive(Debug, Clone)]
pub enum ImageOutput {
    /// As its data or URL.
    Url(String),
    /// Saved to a file in `dir`, named with `prefix`; the file's path is handed back.
    SaveToFile { data: String, dir: String, prefix: String },
}

/// The data that an edit of image `id` works on, if the session holds `id`.
pub open spec fn resolved_image(session: Map<Seq<char>, Seq<char>>, id: Seq<char>) -> Option<Seq<char>> {
    if session.contains_key(id) {
        Some(session[id])
    } else {
        None
    }
}

/// Generates and edits images, remembering what it produced.
pub struct ImageGenerationService {
    pub client: ProviderClient,
    pub config: AppConfig,
    pub session: SessionStore,
}

impl ImageGenerationService {
    /// A service over a provider, a configuration and a session.
    pub fn new(client: ProviderClient, config: AppConfig, session: SessionStore) -> (service: Self)
        ensures
            service.client == client,
            service.config == config,
            service.session == session,
    {
        ImageGenerationService { client, config, session }
    }

    /// The parameters an edit is sent with: the image to edit must be named,
    /// and the session must hold it; its data then takes the place of its
    /// identifier.
    pub fn prepare_edit(&self, params: GenerateParams) -> (prepared: DomainResult<GenerateParams>)
        ensures
            match params.image_id {
                None => prepared matches Err(e) && is_image_error(
                    e,
                    "image_id is required for editing"@,
                ),
                Some(id) => match resolved_image(self.session@, id@) {
                    Some(data) => prepared matches Ok(p) && p.image_id matches Some(d) && d@ == data
                        && p == (GenerateParams { image_id: Some(d), ..params }),
                    None => prepared matches Err(e) && is_image_error(
                        e,
                        "Image ID "@ + id@ + " not found in session"@,
                    ),
                },
            },
    {
        let id = match &params.image_id {
            Some(id) => id.clone(),
            None => {
                return Err(image_error_text("image_id is required for editing"));
            },
        };
        match self.session.get(id.as_str()) {
            Some(data) => Ok(GenerateParams { image_id: Some(data), ..params }),
            None => {
                let mut detail = owned("Image ID ");
                detail.append(id.as_str());
                detail.append(" not found in session");
                Err(DomainError::Image(detail))
            },
        }
    }

    /// Records an image that a provider produced under a fresh identifier.
    pub fn record_result(&mut self, data: String) -> (stored: StoredImage)
        ensures
            stored.data == data,
            is_cuid(stored.id@),
            stored.id@.len() <= 24,
            final(self).session@ == old(self).session@.insert(stored.id@, data@),
            final(self).config == old(self).config,
            final(self).client == old(self).client,
    {
        let id = create_id();
        self.session.store(id.clone(), data.clone());
        StoredImage { id, data }
    }

    /// How a recorded image is handed back: as is with URL output, or saved
    /// under the configured directory with the `gen` prefix with file output.
    pub fn output_for(&self, stored: StoredImage) -> (output: ImageOutput)
        ensures
            self.config.output_format == OutputFormat::File ==> (output matches ImageOutput::SaveToFile { data, dir, prefix }
                && data == stored.data && dir@ == self.config.output_dir@ && prefix@ == "gen"@),
            self.config.output_format == OutputFormat::Url ==> (output matches ImageOutput::Url(u) && u == stored.data),
    {
        if self.config.output_format == OutputFormat::File {
            ImageOutput::SaveToFile {
                data: stored.data,
                dir: self.config.output_dir.clone(),
                prefix: owned("gen"),
            }
        } else {
            ImageOutput::Url(stored.data)
        }
    }
}

/// Law: an edit of an image that was just recorded works on that image's
/// data, and recording an image leaves the other identifiers as they were.
pub proof fn law_edit_finds_recorded_image(
    session: Map<Seq<char>, Seq<char>>,
    id: Seq<char>,
    data: Seq<char>,
    other: Seq<char>,
)
    ensures
        resolved_image(session.insert(id, data), id) == Some(data),
        other != id ==> resolved_image(session.insert(id, data), other) == resolved_image(session, other),
{
}

} // verus!
