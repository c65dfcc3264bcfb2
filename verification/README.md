# image-mcp

An MCP server for image generation and editing through OpenAI-compatible
endpoints (Google Gemini "nano-banana", DALL-E and GPT Image), in three
flavors: standard, nano-banana (aspect ratio and seed) and openai-gen (quality
and style).

The rules of the server are a library verified with Verus (`src/`):

- `cli`, `domain::config` — settings, flavor selection, the configuration in effect;
- `domain::traits`, `domain::errors`, `domain::session`, `domain::output` —
  request parameters, errors and their messages, the session of generated
  images, where and how images are saved;
- `application::image` — recording results and resolving the image an edit refers to;
- `infrastructure` — the provider choice, the Gemini and OpenAI request and
  reply rules, CUID2 identifiers;
- `adapter` — the tools of each flavor, call routing, the arguments and answers of each tool;
- `text`, `codec` — character-level string operations and base64.

`app/` holds the program around it: argument parsing, the MCP transports, the
HTTP calls to the providers, JSON, and file writes.
