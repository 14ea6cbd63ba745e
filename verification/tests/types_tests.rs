use fieri::envelope::FromJson;
use fieri::json::parse_json;
use fieri::types::{
    Chat, ChatParam, Completion, CompletionParam, Delete, Edit, EditParam, Embedding,
    EmbeddingParam, File, FineTune, GenerateImageParam, Image, ImageSize, ListEvents, ListFiles,
    Model, Models, Moderation, ModerationParam,
};

fn parse<T: FromJson>(s: &str) -> T {
    T::from_json(&parse_json(s.as_bytes()).expect("body parses as JSON")).expect(
        "body decodes as the expected type",
    )
}

#[test]
fn test_chat_deserialization() {
    let param: ChatParam = parse(
        r#"
            {
                "model": "gpt-3.5-turbo",
                "messages": [{"role": "user", "content": "Hello!"}]
            }
            "#,
    );

    let resp: Chat = parse(
        r#"
            {
                "id": "chatcmpl-123",
                "object": "chat.completion",
                "created": 1677652288,
                "choices": [{
                  "index": 0,
                  "message": {
                    "role": "assistant",
                    "content": "\n\nHello there, how may I assist you today?"
                  },
                  "finish_reason": "stop"
                }],
                "usage": {
                  "prompt_tokens": 9,
                  "completion_tokens": 12,
                  "total_tokens": 21
                }
              }
            "#,
    );

    assert_eq!(param.model, "gpt-3.5-turbo");
    assert_eq!(param.messages.len(), 1);
    assert_eq!(resp.choices.len(), 1);
    assert_eq!(
        resp.choices[0].message.content,
        "\n\nHello there, how may I assist you today?"
    );
    assert_eq!(resp.choices[0].finish_reason, Some("stop".to_string()));
    assert_eq!(resp.usage.prompt_tokens, 9);
}

#[test]
fn test_create_completion_deserialization() {
    let param: CompletionParam = parse(
        r#"
            {
                "model": "text-davinci-003",
                "prompt": ["Say this is a test"],
                "max_tokens": 7,
                "temperature": 0,
                "top_p": 1,
                "n": 1,
                "stream": false,
                "logprobs": null,
                "stop": "\n"
            }
            "#,
    );

    let resp: Completion = parse(
        r#"
            {
                "id": "cmpl-uqkvlQyYK7bGYrRHQ0eXlWi7",
                "object": "text_completion",
                "created": 1589478378,
                "model": "text-davinci-003",
                "choices": [
                {
                    "text": "\n\nThis is indeed a test",
                    "index": 0,
                    "logprobs": null,
                    "finish_reason": "length"
                }
                ],
                "usage": {
                    "prompt_tokens": 5,
                    "completion_tokens": 7,
                    "total_tokens": 12
                }
            }
            "#,
    );

    assert_eq!(param.model, "text-davinci-003");
    assert_eq!(param.prompt.unwrap(), vec!["Say this is a test"]);
    assert_eq!(param.suffix, None);
    assert_eq!(resp.choices.len(), 1);
    assert_eq!(
        resp.choices[0].text,
        Some("\n\nThis is indeed a test".to_string())
    );
    assert!(resp.choices[0].logprobs.is_none());
    assert_eq!(resp.usage.unwrap().prompt_tokens, 5);
}

#[test]
fn test_create_edit_deserialization() {
    let param: EditParam = parse(
        r#"
            {
                "model": "text-davinci-edit-001",
                "input": "What day of the wek is it?",
                "instruction": "Fix the spelling mistakes"
            }
            "#,
    );

    let resp: Edit = parse(
        r#"
            {
                "object": "edit",
                "created": 1589478378,
                "choices": [
                    {
                        "text": "What day of the week is it?",
                        "index": 0
                    }
                ],
                "usage": {
                    "prompt_tokens": 25,
                    "completion_tokens": 32,
                    "total_tokens": 57
                }
            }
            "#,
    );

    assert_eq!(param.model, "text-davinci-edit-001");
    assert_eq!(param.n, None);
    assert_eq!(resp.object, "edit");
    assert_eq!(resp.choices.len(), 1);
}

#[test]
fn test_create_embedding_deserialization() {
    let param: EmbeddingParam = parse(
        r#"
            {
                "model": "text-embedding-ada-002",
                "input": "The food was delicious and the waiter..."
            }
            "#,
    );

    let resp: Embedding = parse(
        r#"
            {
                "object": "list",
                "data": [
                  {
                    "object": "embedding",
                    "embedding": [
                      0.0023064255,
                      -0.009327292,
                      -0.0028842222
                    ],
                    "index": 0
                  }
                ],
                "model": "text-embedding-ada-002",
                "usage": {
                  "prompt_tokens": 8,
                  "total_tokens": 8
                }
              }
            "#,
    );

    assert_eq!(param.model, "text-embedding-ada-002");
    assert_eq!(param.user, None);
    assert_eq!(resp.data.len(), 1);
    assert_eq!(resp.data[0].embedding.len(), 3);
}

#[test]
fn test_list_files_deserialization() {
    let resp: ListFiles = parse(
        r#"
            {
                "data": [
                  {
                    "id": "file-ccdDZrC3iZVNiQVeEA6Z66wf",
                    "object": "file",
                    "bytes": 175,
                    "created_at": 1613677385,
                    "filename": "train.jsonl",
                    "purpose": "search"
                  },
                  {
                    "id": "file-XjGxS3KTG0uNmNOK362iJua3",
                    "object": "file",
                    "bytes": 140,
                    "created_at": 1613779121,
                    "filename": "puppy.jsonl",
                    "purpose": "search"
                  }
                ],
                "object": "list"
              }
            "#,
    );

    assert_eq!(resp.data.len(), 2);
    assert_eq!(resp.data[0].id, "file-ccdDZrC3iZVNiQVeEA6Z66wf");
    assert_eq!(resp.data[1].object, "file");
}

#[test]
fn test_upload_file_deserialization() {
    let resp: File = parse(
        r#"
            {
                "id": "file-XjGxS3KTG0uNmNOK362iJua3",
                "object": "file",
                "bytes": 140,
                "created_at": 1613779121,
                "filename": "mydata.jsonl",
                "purpose": "fine-tune"
              }
            "#,
    );

    assert_eq!(resp.id, "file-XjGxS3KTG0uNmNOK362iJua3");
    assert_eq!(resp.object, "file");
}

#[test]
fn test_create_fine_tune_deserialization() {
    let resp: FineTune = parse(
        r#"
            {
                "id": "ft-AF1WoRqd3aJAHsqc9NY7iL8F",
                "object": "fine-tune",
                "model": "curie",
                "created_at": 1614807352,
                "events": [
                  {
                    "object": "fine-tune-event",
                    "created_at": 1614807352,
                    "level": "info",
                    "message": "Job enqueued. Waiting for jobs ahead to complete. Queue number: 0."
                  }
                ],
                "fine_tuned_model": null,
                "hyperparams": {
                  "batch_size": 4,
                  "learning_rate_multiplier": 0.1,
                  "n_epochs": 4,
                  "prompt_loss_weight": 0.1
                },
                "organization_id": "org-...",
                "result_files": [],
                "status": "pending",
                "validation_files": [],
                "training_files": [
                  {
                    "id": "file-XGinujblHPwGLSztz8cPS8XY",
                    "object": "file",
                    "bytes": 1547276,
                    "created_at": 1610062281,
                    "filename": "my-data-train.jsonl",
                    "purpose": "fine-tune-train"
                  }
                ],
                "updated_at": 1614807352
            }
            "#,
    );

    assert_eq!(resp.id, "ft-AF1WoRqd3aJAHsqc9NY7iL8F");
    assert_eq!(resp.object, "fine-tune");
    assert_eq!(resp.events.len(), 1);
    assert_eq!(resp.training_files[0].filename, "my-data-train.jsonl");
}

#[test]
fn test_list_fine_tune_events_deserialization() {
    let resp: ListEvents = parse(
        r#"
            {
                "object": "list",
                "data": [
                  {
                    "object": "fine-tune-event",
                    "created_at": 1614807352,
                    "level": "info",
                    "message": "Job enqueued. Waiting for jobs ahead to complete. Queue number: 0."
                  },
                  {
                    "object": "fine-tune-event",
                    "created_at": 1614807356,
                    "level": "info",
                    "message": "Job started."
                  },
                  {
                    "object": "fine-tune-event",
                    "created_at": 1614807861,
                    "level": "info",
                    "message": "Uploaded snapshot: curie:ft-acmeco-2021-03-03-21-44-20."
                  },
                  {
                    "object": "fine-tune-event",
                    "created_at": 1614807864,
                    "level": "info",
                    "message": "Uploaded result files: file-QQm6ZpqdNwAaVC3aSz5sWwLT."
                  },
                  {
                    "object": "fine-tune-event",
                    "created_at": 1614807864,
                    "level": "info",
                    "message": "Job succeeded."
                  }
                ]
              }
            "#,
    );

    assert_eq!(resp.data.len(), 5);
    assert_eq!(resp.data[0].level, "info");
}

#[test]
fn test_delete_fine_tune_deserialization() {
    let resp: Delete = parse(
        r#"
            {
                "id": "curie:ft-acmeco-2021-03-03-21-44-20",
                "object": "model",
                "deleted": true
            }
            "#,
    );

    assert_eq!(resp.id, "curie:ft-acmeco-2021-03-03-21-44-20");
}

#[test]
fn test_parse_image_response_deserialization() {
    let param: GenerateImageParam = parse(
        r#"{
                "prompt": "A cute baby sea otter",
                "size": "S256x256",
                "n": 1
            }"#,
    );

    let result: Image = parse(
        r#"
            {
                "created": 1589478378,
                "data": [
                    {
                        "url": "https://..."
                    },
                    {
                        "url": "https://..."
                    }
                ]
            }
        "#,
    );

    assert_eq!(param.prompt, "A cute baby sea otter");
    assert_eq!(param.size, Some(ImageSize::S256x256));
    assert_eq!(param.user, None);
    assert_eq!(result.data.unwrap().len(), 2);
}

#[test]
fn test_model_list_deserialization() {
    let resp: Models = parse(
        r#"
            {
                "data": [
                  {
                    "id": "model-id-0",
                    "object": "model",
                    "created": 1623155849,
                    "owned_by": "organization-owner",
                    "permission": [],
                    "root": "model-id-1"
                  },
                  {
                    "id": "model-id-1",
                    "object": "model",
                    "created": 11,
                    "owned_by": "organization-owner",
                    "permission": [],
                    "root": "model-id-0"
                  },
                  {
                    "id": "model-id-2",
                    "object": "model",
                    "created": 1234567890,
                    "owned_by": "openai",
                    "permission": [],
                    "root": "model-id-2"
                  }
                ],
                "object": "list"
              }
            "#,
    );

    assert_eq!(resp.data.len(), 3);
    assert_eq!(resp.data[0].id, "model-id-0");
    assert!(resp.token_usage.is_none());
}

#[test]
fn test_model_retrieve_deserialization() {
    let resp: Model = parse(
        r#"
            {
                "id": "text-davinci-003",
                "object": "model",
                "created": 1623155849,
                "owned_by": "openai",
                "permission": [],
                "root": "text-davinci-003"
              }
            "#,
    );

    assert_eq!(resp.id, "text-davinci-003");
    assert!(resp.token_usage.is_none());
}

#[test]
fn test_create_moderation_deserialization() {
    let param: ModerationParam = parse(
        r#"
            {
                "input": "I want to kill them."
              }
            "#,
    );

    let resp: Moderation = parse(
        r#"
            {
                "id": "modr-5MWoLO",
                "model": "text-moderation-001",
                "results": [
                  {
                    "categories": {
                      "hate": false,
                      "hate/threatening": true,
                      "self-harm": false,
                      "sexual": false,
                      "sexual/minors": false,
                      "violence": true,
                      "violence/graphic": false
                    },
                    "category_scores": {
                      "hate": 0.22714105248451233,
                      "hate/threatening": 0.4132447838783264,
                      "self-harm": 0.005232391878962517,
                      "sexual": 0.01407341007143259,
                      "sexual/minors": 0.0038522258400917053,
                      "violence": 0.9223177433013916,
                      "violence/graphic": 0.036865197122097015
                    },
                    "flagged": true
                  }
                ]
              }
            "#,
    );

    assert_eq!(param.input, "I want to kill them.");
    assert_eq!(resp.id, "modr-5MWoLO");
    assert_eq!(resp.model, "text-moderation-001");
    assert_eq!(resp.results.len(), 1);
}
