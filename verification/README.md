# mcp_desktop

The backend of an enterprise-data desktop workspace: it indexes SharePoint
files and Dataverse records, answers questions over them through a chat
model, and serves tools over an MCP HTTP endpoint.

- `src/` is the verified library. It holds the permission and role checks,
  prompt and URL screening, text extraction and chunking for retrieval, the
  tool table and its dispatch, the requests and response readers of the
  connectors, the prompts and request bodies of the agent, the discovery
  catalogue entries, and the database layer's statements and seed data.
  Calls into outside crates (SHA-256, UUIDs, ZIP archives, URL encoding,
  random numbers) stand behind small trusted wrappers whose contracts are
  stated in their doc comments. The PDF text extractor, which can panic on
  malformed documents, runs in `app/`, and the library takes its report.
- `app/` is the program around it: the SQLite database, the HTTP clients,
  the MCP server, the discovery runs, the PDF extractor, and the
  floating-point embedding and similarity code.
- `tests/` exercises the library on concrete values.
